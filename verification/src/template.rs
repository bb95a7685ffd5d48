//! LaTeX escaping of user content.
use vstd::prelude::*;
use crate::json::{Json, JsonValue, items_view};

verus! {

/// What one character of user content becomes in LaTeX source.
pub open spec fn latex_escape_char(c: char) -> Seq<char> {
    if c == '&' {
        seq!['\\', '&']
    } else if c == '%' {
        seq!['\\', '%']
    } else if c == '$' {
        seq!['\\', '$']
    } else if c == '#' {
        seq!['\\', '#']
    } else if c == '_' {
        seq!['\\', '_']
    } else if c == '{' {
        seq!['\\', '{']
    } else if c == '}' {
        seq!['\\', '}']
    } else if c == '~' {
        seq!['\\', 't', 'e', 'x', 't', 'a', 's', 'c', 'i', 'i', 't', 'i', 'l', 'd', 'e', '{', '}']
    } else if c == '^' {
        seq!['\\', 't', 'e', 'x', 't', 'a', 's', 'c', 'i', 'i', 'c', 'i', 'r', 'c', 'u', 'm', '{', '}']
    } else if c == '\\' {
        seq!['\\', 't', 'e', 'x', 't', 'b', 'a', 'c', 'k', 's', 'l', 'a', 's', 'h', '{', '}']
    } else {
        seq![c]
    }
}

/// The escaped form of a whole text: each character replaced by its escape, in order.
pub open spec fn latex_escape(s: Seq<char>) -> Seq<char>
    decreases s.len(),
{
    if s.len() == 0 {
        Seq::empty()
    } else {
        latex_escape(s.drop_last()) + latex_escape_char(s.last())
    }
}

/// Escape the LaTeX special characters `& % $ # _ { } ~ ^ \` so that user content
/// never breaks the TeX parser.
pub fn escape_latex_str(s: &str) -> (out: String)
    ensures
        out@ == latex_escape(s@),
{
    let mut out = String::new();
    for c in it: s.chars()
        invariant
            it.seq() == s@,
            out@ == latex_escape(s@.subrange(0, it.index() as int)),
    {
        proof {
            assert(s@.subrange(0, it.index() + 1).drop_last() =~= s@.subrange(0, it.index() as int));
        }
        match c {
            '&' => out.append("\\&"),
            '%' => out.append("\\%"),
            '$' => out.append("\\$"),
            '#' => out.append("\\#"),
            '_' => out.append("\\_"),
            '{' => out.append("\\{"),
            '}' => out.append("\\}"),
            '~' => out.append("\\textasciitilde{}"),
            '^' => out.append("\\textasciicircum{}"),
            '\\' => out.append("\\textbackslash{}"),
            _ => out.push(c),
        }
        proof {
            reveal_strlit("\\&");
            reveal_strlit("\\%");
            reveal_strlit("\\$");
            reveal_strlit("\\#");
            reveal_strlit("\\_");
            reveal_strlit("\\{");
            reveal_strlit("\\}");
            reveal_strlit("\\textasciitilde{}");
            reveal_strlit("\\textasciicircum{}");
            reveal_strlit("\\textbackslash{}");
        }
    }
    proof {
        assert(s@.subrange(0, s@.len() as int) =~= s@);
    }
    out
}

/// A string escaped; any other value unchanged.
pub open spec fn escape_if_str(j: Json) -> Json {
    match j {
        Json::Str(s) => Json::Str(latex_escape(s)),
        _ => j,
    }
}

/// What the `latex_escape` template filter makes of a value: a string is escaped,
/// the string items of an array are escaped, and anything else is left as it is.
pub open spec fn latex_escape_json(j: Json) -> Json {
    match j {
        Json::Str(s) => Json::Str(latex_escape(s)),
        Json::Array(items) => Json::Array(items.map_values(|x: Json| escape_if_str(x))),
        _ => j,
    }
}

/// A string value escaped, and any other value copied.
fn escape_item(v: &JsonValue) -> (r: JsonValue)
    ensures
        r@ == escape_if_str(v@),
{
    match v {
        JsonValue::Str(s) => JsonValue::str_of(escape_latex_str(s.as_str())),
        _ => v.deep_clone(),
    }
}

/// The template filter `latex_escape`: escapes a string, or each string in an array;
/// other values pass through unchanged.
pub fn latex_escape_value(v: &JsonValue) -> (r: JsonValue)
    ensures
        r@ == latex_escape_json(v@),
{
    match v {
        JsonValue::Str(s) => JsonValue::str_of(escape_latex_str(s.as_str())),
        JsonValue::Array(items) => {
            let mut out: Vec<JsonValue> = Vec::new();
            let n = items.len();
            let mut i: usize = 0;
            while i < n
                invariant
                    n == items@.len(),
                    i <= n,
                    out@.len() == i,
                    forall|j: int| 0 <= j < i ==> #[trigger] out@[j]@ == escape_if_str(items@[j]@),
                decreases n - i,
            {
                out.push(escape_item(&items[i]));
                i = i + 1;
            }
            let r = JsonValue::array_of(out);
            assert(v@->Array_0 =~= items_view(items@));
            assert(items_view(out@) =~= items_view(items@).map_values(|x: Json| escape_if_str(x)));
            r
        },
        _ => v.deep_clone(),
    }
}


/// The filter escapes a string; on an array it keeps the number and the order of the
/// items, escapes every string item, wherever it stands, and keeps every other item;
/// any other value passes through unchanged.
pub proof fn escape_filter_covers_every_item(j: Json)
    ensures
        j matches Json::Str(s) ==> latex_escape_json(j) == Json::Str(latex_escape(s)),
        j matches Json::Array(items) ==> {
            &&& latex_escape_json(j) is Array
            &&& latex_escape_json(j)->Array_0.len() == items.len()
            &&& forall|i: int|
                0 <= i < items.len() ==> (#[trigger] latex_escape_json(j)->Array_0[i] == match items[i] {
                    Json::Str(s) => Json::Str(latex_escape(s)),
                    other => other,
                })
        },
        !(j is Str) && !(j is Array) ==> latex_escape_json(j) == j,
{
}

/// The characters that LaTeX treats specially and that escaping rewrites.
pub open spec fn is_latex_special(c: char) -> bool {
    c == '&' || c == '%' || c == '$' || c == '#' || c == '_' || c == '{' || c == '}' || c == '~'
        || c == '^' || c == '\\'
}

/// The characters that act on their own in LaTeX unless a backslash precedes them.
pub open spec fn needs_backslash(c: char) -> bool {
    c == '&' || c == '%' || c == '$' || c == '#' || c == '_'
}

/// What may follow a backslash in escaped text: an escaped character, or the `t` of
/// `\\textasciitilde{}`, `\\textasciicircum{}` and `\\textbackslash{}`.
pub open spec fn follows_backslash(c: char) -> bool {
    needs_backslash(c) || c == '{' || c == '}' || c == 't'
}

/// Whether `t` is safe LaTeX source: each of `& % $ # _` comes right after a backslash;
/// neither `~` nor `^` occurs; each backslash starts a command, being followed by one of
/// `& % $ # _ { } t`, so that no two backslashes stand together and none ends the text;
/// each brace that no backslash escapes is part of an empty group `{}`.
pub open spec fn neutral(t: Seq<char>) -> bool {
    &&& forall|i: int| 0 <= i < t.len() && needs_backslash(#[trigger] t[i]) ==> i > 0 && t[i - 1] == '\\'
    &&& forall|i: int| 0 <= i < t.len() ==> #[trigger] t[i] != '~' && t[i] != '^'
    &&& forall|i: int|
        0 <= i < t.len() && #[trigger] t[i] == '\\' ==> i + 1 < t.len() && follows_backslash(t[i + 1])
    &&& forall|i: int|
        0 <= i < t.len() && #[trigger] t[i] == '{' && !(i > 0 && t[i - 1] == '\\') ==> i + 1 < t.len()
            && t[i + 1] == '}'
    &&& forall|i: int|
        0 <= i < t.len() && #[trigger] t[i] == '}' && !(i > 0 && t[i - 1] == '\\') ==> i > 0 && t[i - 1]
            == '{'
}

/// Whether `c` may begin a piece of safe text without looking at what comes before it.
pub open spec fn starts_freely(c: char) -> bool {
    !needs_backslash(c) && c != '{' && c != '}'
}

/// Safe pieces put together are safe, where the second starts freely.
proof fn neutral_concat(a: Seq<char>, e: Seq<char>)
    requires
        neutral(a),
        neutral(e),
        e.len() > 0,
        starts_freely(e[0]),
    ensures
        neutral(a + e),
{
    let t = a + e;
    assert forall|i: int| 0 <= i < t.len() implies #[trigger] t[i] == (if i < a.len() {
        a[i]
    } else {
        e[i - a.len()]
    }) by {}
    assert forall|i: int| 0 <= i < t.len() && needs_backslash(#[trigger] t[i]) implies i > 0 && t[i - 1]
        == '\\' by {
        if i < a.len() {
            assert(t[i] == a[i]);
        } else {
            assert(t[i] == e[i - a.len()]);
            assert(i - a.len() > 0);
            assert(t[i - 1] == e[i - a.len() - 1]);
        }
    }
    assert forall|i: int| 0 <= i < t.len() implies #[trigger] t[i] != '~' && t[i] != '^' by {
        if i < a.len() {
            assert(t[i] == a[i]);
        } else {
            assert(t[i] == e[i - a.len()]);
        }
    }
    assert forall|i: int| 0 <= i < t.len() && #[trigger] t[i] == '\\' implies i + 1 < t.len() && follows_backslash(
        t[i + 1],
    ) by {
        if i < a.len() {
            assert(t[i] == a[i]);
            assert(t[i + 1] == a[i + 1]);
        } else {
            assert(t[i] == e[i - a.len()]);
            assert(t[i + 1] == e[i + 1 - a.len()]);
        }
    }
    assert forall|i: int|
        0 <= i < t.len() && #[trigger] t[i] == '{' && !(i > 0 && t[i - 1] == '\\') implies i + 1 < t.len()
        && t[i + 1] == '}' by {
        if i < a.len() {
            assert(t[i] == a[i]);
            if i > 0 {
                assert(t[i - 1] == a[i - 1]);
            }
            assert(t[i + 1] == a[i + 1]);
        } else {
            assert(t[i] == e[i - a.len()]);
            assert(i - a.len() > 0);
            assert(t[i - 1] == e[i - a.len() - 1]);
            assert(t[i + 1] == e[i + 1 - a.len()]);
        }
    }
    assert forall|i: int|
        0 <= i < t.len() && #[trigger] t[i] == '}' && !(i > 0 && t[i - 1] == '\\') implies i > 0 && t[i - 1]
        == '{' by {
        if i < a.len() {
            assert(t[i] == a[i]);
            if i > 0 {
                assert(t[i - 1] == a[i - 1]);
            }
        } else {
            assert(t[i] == e[i - a.len()]);
            assert(i - a.len() > 0);
            assert(t[i - 1] == e[i - a.len() - 1]);
        }
    }
}

/// The escape of one character is safe and starts freely.
proof fn escape_char_neutral(c: char)
    ensures
        neutral(latex_escape_char(c)),
        latex_escape_char(c).len() > 0,
        starts_freely(latex_escape_char(c)[0]),
{
    let e = latex_escape_char(c);
    if is_latex_special(c) {
        assert(e[0] == '\\');
        assert(neutral(e));
    } else {
        assert(e =~= seq![c]);
    }
}

/// Escaping works character by character: the escape of two texts one after the other is
/// the escape of the first followed by the escape of the second.
pub proof fn escape_of_concat(a: Seq<char>, b: Seq<char>)
    ensures
        latex_escape(a + b) == latex_escape(a) + latex_escape(b),
    decreases b.len(),
{
    if b.len() == 0 {
        assert(a + b =~= a);
        assert(latex_escape(a) + latex_escape(b) =~= latex_escape(a));
    } else {
        escape_of_concat(a, b.drop_last());
        assert((a + b).drop_last() =~= a + b.drop_last());
        assert((a + b).last() == b.last());
        assert(latex_escape(a) + latex_escape(b.drop_last()) + latex_escape_char(b.last()) =~= latex_escape(a)
            + (latex_escape(b.drop_last()) + latex_escape_char(b.last())));
    }
}

/// Text with none of the special characters comes out of escaping unchanged.
pub proof fn escape_keeps_plain_text(s: Seq<char>)
    requires
        forall|i: int| 0 <= i < s.len() ==> !is_latex_special(#[trigger] s[i]),
    ensures
        latex_escape(s) == s,
    decreases s.len(),
{
    if s.len() > 0 {
        escape_keeps_plain_text(s.drop_last());
        assert(!is_latex_special(s[s.len() - 1]));
        assert(s.drop_last().push(s.last()) =~= s);
    }
}

/// Escaped text is safe to place in LaTeX source: every `& % $ # _` in it is preceded by
/// a backslash; it holds no `~` and no `^`; every backslash starts a command; and every
/// brace that no backslash escapes belongs to an empty group `{}`.
pub proof fn escape_neutralizes(s: Seq<char>)
    ensures
        neutral(latex_escape(s)),
    decreases s.len(),
{
    if s.len() > 0 {
        escape_neutralizes(s.drop_last());
        escape_char_neutral(s.last());
        neutral_concat(latex_escape(s.drop_last()), latex_escape_char(s.last()));
    }
}

/// The escape of a text is its first character's escape followed by the escape of the rest.
pub proof fn escape_of_first(s: Seq<char>)
    requires
        s.len() > 0,
    ensures
        latex_escape(s) == latex_escape_char(s[0]) + latex_escape(s.drop_first()),
{
    let one = seq![s[0]];
    escape_of_concat(one, s.drop_first());
    assert(one + s.drop_first() =~= s);
    assert(one.drop_last() =~= Seq::<char>::empty());
    assert(latex_escape(Seq::<char>::empty()) == Seq::<char>::empty());
    assert(one.last() == s[0]);
    assert(latex_escape(one) =~= latex_escape_char(s[0]));
}

/// No character's escape is a prefix of another's: where two texts start with the
/// escapes of `x` and `y` and are equal, `x` and `y` are equal, and so are the rests.
proof fn escapes_prefix_free(x: char, y: char, a: Seq<char>, b: Seq<char>)
    requires
        latex_escape_char(x) + a == latex_escape_char(y) + b,
    ensures
        x == y,
        a == b,
{
    let ex = latex_escape_char(x);
    let ey = latex_escape_char(y);
    let t = ex + a;
    escape_char_neutral(x);
    escape_char_neutral(y);
    assert(ex[0] == t[0] && ey[0] == (ey + b)[0]);
    if ex.len() > 1 && ey.len() > 1 {
        assert(ex[1] == t[1] && ey[1] == (ey + b)[1]);
    }
    if ex.len() > 5 && ey.len() > 5 {
        assert(ex[5] == t[5] && ey[5] == (ey + b)[5]);
    }
    if ex.len() > 10 && ey.len() > 10 {
        assert(ex[10] == t[10] && ey[10] == (ey + b)[10]);
    }
    assert(x == y);
    assert(a =~= t.subrange(ex.len() as int, t.len() as int));
    assert(b =~= (ey + b).subrange(ey.len() as int, t.len() as int));
}

/// Escaping loses nothing: different texts have different escapes.
pub proof fn escape_is_injective(a: Seq<char>, b: Seq<char>)
    requires
        latex_escape(a) == latex_escape(b),
    ensures
        a == b,
    decreases a.len(),
{
    if a.len() == 0 {
        if b.len() > 0 {
            escape_of_first(b);
            escape_char_neutral(b[0]);
        }
        assert(b =~= a);
    } else {
        escape_of_first(a);
        escape_char_neutral(a[0]);
        assert(b.len() > 0);
        escape_of_first(b);
        escapes_prefix_free(a[0], b[0], latex_escape(a.drop_first()), latex_escape(b.drop_first()));
        escape_is_injective(a.drop_first(), b.drop_first());
        assert forall|i: int| 0 <= i < a.len() implies a[i] == b[i] by {
            if i > 0 {
                assert(a[i] == a.drop_first()[i - 1]);
                assert(b[i] == b.drop_first()[i - 1]);
            }
        }
        assert(a =~= b);
    }
}

} // verus!
