use cv_writer_mcp::schema::sample_cv_profile;

#[test]
fn sample_profile_content() {
    let p = sample_cv_profile();
    assert_eq!(p.contact.name, "Star Rover");
    assert_eq!(p.contact.email.as_deref(), Some("email@example.com"));
    assert_eq!(p.education.len(), 1);
    assert_eq!(p.education[0].highlights.len(), 3);
    assert_eq!(p.experience.len(), 2);
    assert_eq!(p.experience[0].company, "Amazon");
    assert_eq!(p.experience[1].company, "Google");
    assert_eq!(p.experience[1].roles.len(), 2);
    assert_eq!(p.experience[1].roles[1].title, "Software Engineering Intern");
    assert_eq!(p.projects.len(), 2);
    assert_eq!(p.skills.len(), 3);
    assert_eq!(p.skills[0].items, vec!["Rust", "C/C++", "Linux/POSIX", "Docker", "LuaLaTeX"]);
    assert_eq!(p.certifications.len(), 2);
    assert_eq!(p.publications.len(), 1);
    assert!(p.publications[0].citation.starts_with("A. Vaswani et al., \"Attention is All you Need,\""));
    assert_eq!(p.awards[0].date.as_deref(), Some("2023"));
    assert!(!p.hide_page_numbers);
    assert_eq!(p, sample_cv_profile());
}
