//! The CV profile model and the sample profile.
use vstd::prelude::*;
use crate::json::text;

verus! {

/// Canonical CV / Resume Profile Model matching the Star Rover template structure.
/// Designed for AI agents to synthesize arbitrary user resumes into an abstracted, typed interface.
#[derive(Clone, Debug, PartialEq)]
pub struct CvProfile {
    /// Personal contact information and social links.
    pub contact: ContactInfo,
    /// Optional professional summary or executive objective.
    pub summary: Option<String>,
    /// Education entries (university, degree, dates, coursework/honors).
    pub education: Vec<EducationItem>,
    /// Professional work experience grouped by company and sub-roles.
    pub experience: Vec<ExperienceItem>,
    /// Notable engineering, research, or personal projects.
    pub projects: Vec<ProjectItem>,
    /// Skills classified by category (e.g., Technical, Languages, Tools).
    pub skills: Vec<SkillCategory>,
    /// Professional certifications, licenses, or bootcamps.
    pub certifications: Vec<CertificationItem>,
    /// Academic publications, research papers, or articles.
    pub publications: Vec<PublicationItem>,
    /// Honors, awards, or recognitions.
    pub awards: Vec<AwardItem>,
    /// Option to hide footer page numbering (default: false).
    pub hide_page_numbers: bool,
}

#[derive(Clone, Debug, PartialEq)]
pub struct ContactInfo {
    /// Full name of the candidate (e.g. "Jane Doe").
    pub name: String,
    /// Phone number (e.g. "+1 (555) 019-2834").
    pub phone: Option<String>,
    /// Email address (e.g. "jane.doe@example.com").
    pub email: Option<String>,
    /// GitHub username or profile handle (e.g. "janedoe").
    pub github: Option<String>,
    /// LinkedIn profile handle (e.g. "jane-doe").
    pub linkedin: Option<String>,
    /// Personal portfolio, blog, or website URL (e.g. "https://janedoe.dev").
    pub website: Option<String>,
    /// Geographic location or city, state/country (e.g. "San Francisco, CA").
    pub location: Option<String>,
}

#[derive(Clone, Debug, PartialEq)]
pub struct EducationItem {
    /// University, college, or educational institution name.
    pub institution: String,
    /// Degree or major (e.g. "B.S. in Computer Science & Engineering").
    pub degree: Option<String>,
    /// Dates attended or graduation year (e.g. "2020 -- 2024").
    pub dates: Option<String>,
    /// Bullet points for honors, GPA, scholarships, or relevant coursework.
    pub highlights: Vec<String>,
}

#[derive(Clone, Debug, PartialEq)]
pub struct ExperienceItem {
    /// Organization or company name (e.g. "Google").
    pub company: String,
    /// Location of the office (e.g. "Mountain View, CA").
    pub location: Option<String>,
    /// Positions/roles held at this company (supports multiple hierarchical roles).
    pub roles: Vec<RoleItem>,
}

#[derive(Clone, Debug, PartialEq)]
pub struct RoleItem {
    /// Job title / designation (e.g. "Senior Distributed Systems Engineer").
    pub title: String,
    /// Duration / date range (e.g. "Jul 2021 -- Present").
    pub dates: Option<String>,
    /// Bullet points of accomplishments, metrics, and responsibilities.
    pub highlights: Vec<String>,
}

#[derive(Clone, Debug, PartialEq)]
pub struct ProjectItem {
    /// Project name.
    pub name: String,
    /// Optional web or repository link.
    pub url: Option<String>,
    /// Date or duration of the project.
    pub dates: Option<String>,
    /// Project details, technologies utilized, and measurable outcomes.
    pub highlights: Vec<String>,
}

#[derive(Clone, Debug, PartialEq)]
pub struct SkillCategory {
    /// Category name (e.g. "Languages", "Cloud & Infra", "Frameworks").
    pub category: String,
    /// List of skill names under this category.
    pub items: Vec<String>,
}

#[derive(Clone, Debug, PartialEq)]
pub struct CertificationItem {
    /// Name of certification or bootcamp.
    pub name: String,
    /// Issuing body or institution (e.g. "AWS", "Linux Foundation").
    pub issuer: Option<String>,
    /// Year or date received.
    pub date: Option<String>,
}

#[derive(Clone, Debug, PartialEq)]
pub struct PublicationItem {
    /// Full citation text for publication or paper.
    pub citation: String,
    /// Optional link to paper (arXiv, DOI, etc.).
    pub url: Option<String>,
}

#[derive(Clone, Debug, PartialEq)]
pub struct AwardItem {
    /// Title of the award or honor.
    pub title: String,
    /// Year or date received.
    pub date: Option<String>,
    /// Short summary or context.
    pub summary: Option<String>,
}

/// The texts of an optional string.
pub open spec fn opt_text(o: Option<String>) -> Option<Seq<char>> {
    match o {
        Some(s) => Some(s@),
        None => None,
    }
}

/// The texts of a list of strings.
pub open spec fn texts(v: Vec<String>) -> Seq<Seq<char>> {
    v@.map_values(|s: String| s@)
}

/// The `contact` part of the sample profile.
pub open spec fn is_sample_contact(v: ContactInfo) -> bool {
    &&& v.name@ == "Star Rover"@
    &&& opt_text(v.phone) == Some("+1 (123) 456-7890"@)
    &&& opt_text(v.email) == Some("email@example.com"@)
    &&& opt_text(v.github) == Some("yourusername"@)
    &&& opt_text(v.linkedin) == Some("profile-name"@)
    &&& opt_text(v.website) == Some("https://starportfolio.com"@)
    &&& opt_text(v.location) == Some("San Francisco, CA"@)
}

/// The `summary` part of the sample profile.
pub open spec fn is_sample_summary(v: Option<String>) -> bool {
    &&& opt_text(v) == Some("Systems and backend engineer specialized in high-performance stateless distributed microservices, Rust, and modern typesetting architectures."@)
}

/// The `education` part of the sample profile.
pub open spec fn is_sample_education(v: Vec<EducationItem>) -> bool {
    &&& v@.len() == 1
    &&& v@[0].institution@ == "Graduation University"@
    &&& opt_text(v@[0].degree) == Some("BS in Computer Science & Engineering"@)
    &&& opt_text(v@[0].dates) == Some("2020 -- 2024"@)
    &&& texts(v@[0].highlights) == seq!["summa cum laude"@, "Extensive coursework in Distributed Systems, Operating Systems, Statistics"@, "Van Damme Scholarship recipient"@]
}

/// The `experience` part of the sample profile.
pub open spec fn is_sample_experience(v: Vec<ExperienceItem>) -> bool {
    &&& v@.len() == 2
    &&& v@[0].company@ == "Amazon"@
    &&& opt_text(v@[0].location) == Some("Seattle, WA"@)
    &&& v@[0].roles@.len() == 1
    &&& v@[0].roles@[0].title@ == "Prime Infrastructure Engineer"@
    &&& opt_text(v@[0].roles@[0].dates) == Some("Jul 2020 -- Mar 2022"@)
    &&& texts(v@[0].roles@[0].highlights) == seq!["Increased order volume throughput by 823% over continuous deployment iterations."@, "Researched diverse product catalog caching optimizations."@, "Regularly contributed to platform reliability and performance portals."@]
    &&& v@[1].company@ == "Google"@
    &&& opt_text(v@[1].location) == Some("Mountain View, CA"@)
    &&& v@[1].roles@.len() == 2
    &&& v@[1].roles@[0].title@ == "Backend Engineer"@
    &&& opt_text(v@[1].roles@[0].dates) == Some("Jan 2014 -- Dec 2016"@)
    &&& texts(v@[1].roles@[0].highlights) == seq!["Responsible for managing indexing pipelines across search and distributed storage suites."@, "Troubleshot high-concurrency calendar sync bottlenecks."@]
    &&& v@[1].roles@[1].title@ == "Software Engineering Intern"@
    &&& opt_text(v@[1].roles@[1].dates) == Some("Jun 2013 -- Dec 2013"@)
    &&& texts(v@[1].roles@[1].highlights) == seq!["Ensured timely execution and telemetry observability of cluster automation tasks."@, "Exceeded market benchmarks for throughput latency SLAs."@]
}

/// The `projects` part of the sample profile.
pub open spec fn is_sample_projects(v: Vec<ProjectItem>) -> bool {
    &&& v@.len() == 2
    &&& v@[0].name@ == "Lunar Rover Automation"@
    &&& opt_text(v@[0].url) == Some("https://robotics.nasa.gov/lmr/"@)
    &&& opt_text(v@[0].dates) == Some("2012 -- 2013"@)
    &&& texts(v@[0].highlights) == seq!["LIDAR array telemetry, GPS synchronization, Variable FOV camera pipeline in Rust and C++."@, "Designed system to be reconfigurable and modular for arbitrary sensor payloads."@]
    &&& v@[1].name@ == "Mars Autonomous Sensor Pod"@
    &&& opt_text(v@[1].url) == Some("https://science.nasa.gov/mission/mars-exploration-rovers/"@)
    &&& opt_text(v@[1].dates) == Some("Feb 2012"@)
    &&& texts(v@[1].highlights) == seq!["Implemented real-time sensor processing and fault recovery algorithms."@, "Optimized battery duty cycles by 50% under simulated cold martian nights."@]
}

/// The `skills` part of the sample profile.
pub open spec fn is_sample_skills(v: Vec<SkillCategory>) -> bool {
    &&& v@.len() == 3
    &&& v@[0].category@ == "Technical"@
    &&& texts(v@[0].items) == seq!["Rust"@, "C/C++"@, "Linux/POSIX"@, "Docker"@, "LuaLaTeX"@]
    &&& v@[1].category@ == "Languages"@
    &&& texts(v@[1].items) == seq!["English (Native)"@, "Vietnamese (Fluent)"@]
    &&& v@[2].category@ == "Platforms"@
    &&& texts(v@[2].items) == seq!["Kubernetes"@, "AWS"@, "GCP"@]
}

/// The `certifications` part of the sample profile.
pub open spec fn is_sample_certifications(v: Vec<CertificationItem>) -> bool {
    &&& v@.len() == 2
    &&& v@[0].name@ == "Certified Kubernetes Administrator (CKA)"@
    &&& opt_text(v@[0].issuer) == Some("Linux Foundation"@)
    &&& opt_text(v@[0].date) == Some("2023"@)
    &&& v@[1].name@ == "AWS Certified Solutions Architect -- Professional"@
    &&& opt_text(v@[1].issuer) == Some("Amazon Web Services"@)
    &&& opt_text(v@[1].date) == Some("2022"@)
}

/// The `publications` part of the sample profile.
pub open spec fn is_sample_publications(v: Vec<PublicationItem>) -> bool {
    &&& v@.len() == 1
    &&& v@[0].citation@ == "A. Vaswani et al., \"Attention is All you Need,\" arXiv (Cornell University), vol. 30, pp. 5998-6008, Jun. 2017."@
    &&& opt_text(v@[0].url) == Some("https://arxiv.org/pdf/1706.03762v5"@)
}

/// The `awards` part of the sample profile.
pub open spec fn is_sample_awards(v: Vec<AwardItem>) -> bool {
    &&& v@.len() == 1
    &&& v@[0].title@ == "ACM Collegiate Programming Finalist"@
    &&& opt_text(v@[0].date) == Some("2023"@)
    &&& opt_text(v@[0].summary) == Some("Ranked top 1% internationally in algorithmic efficiency."@)
}

fn sample_contact() -> (v: ContactInfo)
    ensures
        is_sample_contact(v),
{
    let v = ContactInfo {
        name: text("Star Rover"),
        phone: Some(text("+1 (123) 456-7890")),
        email: Some(text("email@example.com")),
        github: Some(text("yourusername")),
        linkedin: Some(text("profile-name")),
        website: Some(text("https://starportfolio.com")),
        location: Some(text("San Francisco, CA")),
    };
    v
}

fn sample_summary() -> (v: Option<String>)
    ensures
        is_sample_summary(v),
{
    let v = Some(text("Systems and backend engineer specialized in high-performance stateless distributed microservices, Rust, and modern typesetting architectures."));
    v
}

fn sample_education() -> (v: Vec<EducationItem>)
    ensures
        is_sample_education(v),
{
    let v = vec![
        EducationItem {
            institution: text("Graduation University"),
            degree: Some(text("BS in Computer Science & Engineering")),
            dates: Some(text("2020 -- 2024")),
            highlights: vec![
                text("summa cum laude"),
                text("Extensive coursework in Distributed Systems, Operating Systems, Statistics"),
                text("Van Damme Scholarship recipient"),
            ],
        },
    ];
    assert(texts(v@[0].highlights) =~= seq!["summa cum laude"@, "Extensive coursework in Distributed Systems, Operating Systems, Statistics"@, "Van Damme Scholarship recipient"@]);
    v
}

fn sample_experience() -> (v: Vec<ExperienceItem>)
    ensures
        is_sample_experience(v),
{
    let v = vec![
        ExperienceItem {
            company: text("Amazon"),
            location: Some(text("Seattle, WA")),
            roles: vec![
                RoleItem {
                    title: text("Prime Infrastructure Engineer"),
                    dates: Some(text("Jul 2020 -- Mar 2022")),
                    highlights: vec![
                        text("Increased order volume throughput by 823% over continuous deployment iterations."),
                        text("Researched diverse product catalog caching optimizations."),
                        text("Regularly contributed to platform reliability and performance portals."),
                    ],
                },
            ],
        },
        ExperienceItem {
            company: text("Google"),
            location: Some(text("Mountain View, CA")),
            roles: vec![
                RoleItem {
                    title: text("Backend Engineer"),
                    dates: Some(text("Jan 2014 -- Dec 2016")),
                    highlights: vec![
                        text("Responsible for managing indexing pipelines across search and distributed storage suites."),
                        text("Troubleshot high-concurrency calendar sync bottlenecks."),
                    ],
                },
                RoleItem {
                    title: text("Software Engineering Intern"),
                    dates: Some(text("Jun 2013 -- Dec 2013")),
                    highlights: vec![
                        text("Ensured timely execution and telemetry observability of cluster automation tasks."),
                        text("Exceeded market benchmarks for throughput latency SLAs."),
                    ],
                },
            ],
        },
    ];
    assert(texts(v@[0].roles@[0].highlights) =~= seq!["Increased order volume throughput by 823% over continuous deployment iterations."@, "Researched diverse product catalog caching optimizations."@, "Regularly contributed to platform reliability and performance portals."@]);
    assert(texts(v@[1].roles@[0].highlights) =~= seq!["Responsible for managing indexing pipelines across search and distributed storage suites."@, "Troubleshot high-concurrency calendar sync bottlenecks."@]);
    assert(texts(v@[1].roles@[1].highlights) =~= seq!["Ensured timely execution and telemetry observability of cluster automation tasks."@, "Exceeded market benchmarks for throughput latency SLAs."@]);
    v
}

fn sample_projects() -> (v: Vec<ProjectItem>)
    ensures
        is_sample_projects(v),
{
    let v = vec![
        ProjectItem {
            name: text("Lunar Rover Automation"),
            url: Some(text("https://robotics.nasa.gov/lmr/")),
            dates: Some(text("2012 -- 2013")),
            highlights: vec![
                text("LIDAR array telemetry, GPS synchronization, Variable FOV camera pipeline in Rust and C++."),
                text("Designed system to be reconfigurable and modular for arbitrary sensor payloads."),
            ],
        },
        ProjectItem {
            name: text("Mars Autonomous Sensor Pod"),
            url: Some(text("https://science.nasa.gov/mission/mars-exploration-rovers/")),
            dates: Some(text("Feb 2012")),
            highlights: vec![
                text("Implemented real-time sensor processing and fault recovery algorithms."),
                text("Optimized battery duty cycles by 50% under simulated cold martian nights."),
            ],
        },
    ];
    assert(texts(v@[0].highlights) =~= seq!["LIDAR array telemetry, GPS synchronization, Variable FOV camera pipeline in Rust and C++."@, "Designed system to be reconfigurable and modular for arbitrary sensor payloads."@]);
    assert(texts(v@[1].highlights) =~= seq!["Implemented real-time sensor processing and fault recovery algorithms."@, "Optimized battery duty cycles by 50% under simulated cold martian nights."@]);
    v
}

fn sample_skills() -> (v: Vec<SkillCategory>)
    ensures
        is_sample_skills(v),
{
    let v = vec![
        SkillCategory {
            category: text("Technical"),
            items: vec![
                text("Rust"),
                text("C/C++"),
                text("Linux/POSIX"),
                text("Docker"),
                text("LuaLaTeX"),
            ],
        },
        SkillCategory {
            category: text("Languages"),
            items: vec![
                text("English (Native)"),
                text("Vietnamese (Fluent)"),
            ],
        },
        SkillCategory {
            category: text("Platforms"),
            items: vec![
                text("Kubernetes"),
                text("AWS"),
                text("GCP"),
            ],
        },
    ];
    assert(texts(v@[0].items) =~= seq!["Rust"@, "C/C++"@, "Linux/POSIX"@, "Docker"@, "LuaLaTeX"@]);
    assert(texts(v@[1].items) =~= seq!["English (Native)"@, "Vietnamese (Fluent)"@]);
    assert(texts(v@[2].items) =~= seq!["Kubernetes"@, "AWS"@, "GCP"@]);
    v
}

fn sample_certifications() -> (v: Vec<CertificationItem>)
    ensures
        is_sample_certifications(v),
{
    let v = vec![
        CertificationItem {
            name: text("Certified Kubernetes Administrator (CKA)"),
            issuer: Some(text("Linux Foundation")),
            date: Some(text("2023")),
        },
        CertificationItem {
            name: text("AWS Certified Solutions Architect -- Professional"),
            issuer: Some(text("Amazon Web Services")),
            date: Some(text("2022")),
        },
    ];
    v
}

fn sample_publications() -> (v: Vec<PublicationItem>)
    ensures
        is_sample_publications(v),
{
    let v = vec![
        PublicationItem {
            citation: text("A. Vaswani et al., \"Attention is All you Need,\" arXiv (Cornell University), vol. 30, pp. 5998-6008, Jun. 2017."),
            url: Some(text("https://arxiv.org/pdf/1706.03762v5")),
        },
    ];
    v
}

fn sample_awards() -> (v: Vec<AwardItem>)
    ensures
        is_sample_awards(v),
{
    let v = vec![
        AwardItem {
            title: text("ACM Collegiate Programming Finalist"),
            date: Some(text("2023")),
            summary: Some(text("Ranked top 1% internationally in algorithmic efficiency.")),
        },
    ];
    v
}

/// Whether `p` is the sample profile, field by field.
pub open spec fn is_sample_profile(p: CvProfile) -> bool {
    &&& is_sample_contact(p.contact)
    &&& is_sample_summary(p.summary)
    &&& is_sample_education(p.education)
    &&& is_sample_experience(p.experience)
    &&& is_sample_projects(p.projects)
    &&& is_sample_skills(p.skills)
    &&& is_sample_certifications(p.certifications)
    &&& is_sample_publications(p.publications)
    &&& is_sample_awards(p.awards)
    &&& p.hide_page_numbers == false
}

/// A sample CV with the Star Rover demonstration content.
pub fn sample_cv_profile() -> (p: CvProfile)
    ensures
        is_sample_profile(p),
{
    CvProfile {
        contact: sample_contact(),
        summary: sample_summary(),
        education: sample_education(),
        experience: sample_experience(),
        projects: sample_projects(),
        skills: sample_skills(),
        certifications: sample_certifications(),
        publications: sample_publications(),
        awards: sample_awards(),
        hide_page_numbers: false,
    }
}

} // verus!
