use vstd::prelude::*;
use crate::diagnostic::{Diagnostic, DiagnosticKind};
use crate::schema::{AttrEntry, Delimiter, Token};

verus! {

/// The tag that marks an attribute as ours: the last segment of its path.
pub open spec fn tag_matches(path: Seq<String>) -> bool {
    path.len() > 0 && path.last()@ == "builder"@
}

/// Whether `c` has the Unicode property XID_Start.
pub uninterp spec fn xid_start(c: char) -> bool;

/// Whether `c` has the Unicode property XID_Continue.
pub uninterp spec fn xid_continue(c: char) -> bool;

/// Relies on unicode_ident::is_xid_start: whether the character has the
/// Unicode property XID_Start, a function of the character alone.
#[verifier::external_body]
fn is_xid_start(c: char) -> (r: bool)
    ensures
        r == xid_start(c),
{
    unicode_ident::is_xid_start(c)
}

/// Relies on unicode_ident::is_xid_continue: whether the character has the
/// Unicode property XID_Continue, a function of the character alone.
#[verifier::external_body]
fn is_xid_continue(c: char) -> (r: bool)
    ensures
        r == xid_continue(c),
{
    unicode_ident::is_xid_continue(c)
}

/// `s` can name a method: `_` or an XID_Start character, then XID_Continue
/// characters, and not `_` alone.
pub open spec fn is_identifier(s: Seq<char>) -> bool {
    &&& s.len() > 0
    &&& (s[0] == '_' || xid_start(s[0]))
    &&& forall|i: int| 1 <= i < s.len() ==> xid_continue(#[trigger] s[i])
    &&& !(s.len() == 1 && s[0] == '_')
}

/// The three tokens `each = "name"`, giving `name`.
pub open spec fn each_pair(inner: Seq<Token>) -> Option<Seq<char>> {
    if inner.len() == 3 {
        match (inner[0], inner[1], inner[2]) {
            (Token::Ident(k), Token::Punct('='), Token::Str(v)) => {
                if k@ == "each"@ && is_identifier(v@) {
                    Some(v@)
                } else {
                    None
                }
            },
            _ => None,
        }
    } else {
        None
    }
}

/// The arguments `(each = "name")` of a `builder` attribute, giving `name`;
/// `None` for any other shape.
pub open spec fn each_value(tokens: Seq<Token>) -> Option<Seq<char>> {
    if tokens.len() == 1 {
        match tokens[0] {
            Token::Group(Delimiter::Parenthesis, inner) => each_pair(inner@),
            _ => None,
        }
    } else {
        None
    }
}

/// What one attribute entry says: nothing (another tag), an element-setter
/// name, or a malformed-attribute diagnostic at the entry.
pub open spec fn attr_meaning(a: AttrEntry) -> Result<Option<Seq<char>>, Diagnostic> {
    if !tag_matches(a.path@) {
        Ok(None)
    } else {
        match each_value(a.tokens@) {
            Some(v) => Ok(Some(v)),
            None => Err(Diagnostic { span: a.span, kind: DiagnosticKind::MalformedAttribute }),
        }
    }
}

/// What the attribute entries of a field say, read in order: every entry must be
/// well formed, and the first `builder` entry wins.
pub open spec fn attrs_meaning(attrs: Seq<AttrEntry>) -> Result<Option<Seq<char>>, Diagnostic>
    decreases attrs.len(),
{
    if attrs.len() == 0 {
        Ok(None)
    } else {
        match attrs_meaning(attrs.drop_last()) {
            Err(e) => Err(e),
            Ok(prev) => match attr_meaning(attrs.last()) {
                Err(e) => Err(e),
                Ok(cur) => Ok(if prev is Some { prev } else { cur }),
            },
        }
    }
}

/// Whether `s` can name a method.
pub fn check_identifier(s: &String) -> (r: bool)
    ensures
        r == is_identifier(s@),
{
    let t = s.as_str();
    let n = t.unicode_len();
    if n == 0 {
        return false;
    }
    let c0 = t.get_char(0);
    if !(c0 == '_' || is_xid_start(c0)) {
        return false;
    }
    if n == 1 && c0 == '_' {
        return false;
    }
    let mut i: usize = 1;
    while i < n
        invariant
            1 <= i <= n,
            n == s@.len(),
            t@ == s@,
            forall|j: int| 1 <= j < i ==> xid_continue(#[trigger] s@[j]),
        decreases n - i,
    {
        let c = t.get_char(i);
        if !is_xid_continue(c) {
            return false;
        }
        i = i + 1;
    }
    true
}

fn is_builder_tag(path: &Vec<String>) -> (r: bool)
    ensures
        r == tag_matches(path@),
{
    if path.len() == 0 {
        return false;
    }
    let tag = String::from_str("builder");
    path[path.len() - 1] == tag
}

/// Reads `(each = "name")`, the arguments of a `builder` attribute.
pub fn parse_each_value(tokens: &Vec<Token>) -> (r: Option<String>)
    ensures
        match r {
            Some(v) => each_value(tokens@) == Some(v@),
            None => each_value(tokens@) is None,
        },
{
    if tokens.len() != 1 {
        return None;
    }
    match &tokens[0] {
        Token::Group(Delimiter::Parenthesis, inner) => {
            if inner.len() != 3 {
                return None;
            }
            match (&inner[0], &inner[1], &inner[2]) {
                (Token::Ident(k), Token::Punct(p), Token::Str(v)) => {
                    let each = String::from_str("each");
                    if *p == '=' && *k == each && check_identifier(v) {
                        Some(v.clone())
                    } else {
                        None
                    }
                },
                _ => None,
            }
        },
        _ => None,
    }
}

/// Reads one attribute entry of a field.
pub fn parse_vec_attribute(attr: &AttrEntry) -> (r: Result<Option<String>, Diagnostic>)
    ensures
        match r {
            Ok(Some(v)) => attr_meaning(*attr) == Ok::<_, Diagnostic>(Some(v@)),
            Ok(None) => attr_meaning(*attr) == Ok::<_, Diagnostic>(None::<Seq<char>>),
            Err(d) => attr_meaning(*attr) == Err::<Option<Seq<char>>, _>(d),
        },
{
    if !is_builder_tag(&attr.path) {
        return Ok(None);
    }
    match parse_each_value(&attr.tokens) {
        Some(v) => Ok(Some(v)),
        None => Err(Diagnostic::new(attr.span, DiagnosticKind::MalformedAttribute)),
    }
}

/// Reads all attribute entries of a field: the element-setter name of the first
/// `builder` entry, if any, unless some `builder` entry is malformed.
pub fn parse_field_attributes(attrs: &Vec<AttrEntry>) -> (r: Result<Option<String>, Diagnostic>)
    ensures
        match r {
            Ok(Some(v)) => attrs_meaning(attrs@) == Ok::<_, Diagnostic>(Some(v@)),
            Ok(None) => attrs_meaning(attrs@) == Ok::<_, Diagnostic>(None::<Seq<char>>),
            Err(d) => attrs_meaning(attrs@) == Err::<Option<Seq<char>>, _>(d),
        },
{
    let mut found: Option<String> = None;
    let mut i: usize = 0;
    while i < attrs.len()
        invariant
            i <= attrs.len(),
            match found {
                Some(v) => attrs_meaning(attrs@.subrange(0, i as int)) == Ok::<_, Diagnostic>(
                    Some(v@),
                ),
                None => attrs_meaning(attrs@.subrange(0, i as int)) == Ok::<_, Diagnostic>(
                    None::<Seq<char>>,
                ),
            },
        decreases attrs.len() - i,
    {
        proof {
            assert(attrs@.subrange(0, i + 1).drop_last() == attrs@.subrange(0, i as int));
        }
        let cur = parse_vec_attribute(&attrs[i]);
        match cur {
            Err(d) => {
                proof {
                    lemma_error_persists(attrs@, i as int + 1);
                }
                return Err(d);
            },
            Ok(v) => {
                if found.is_none() {
                    found = v;
                }
            },
        }
        i = i + 1;
    }
    proof {
        assert(attrs@.subrange(0, attrs@.len() as int) == attrs@);
    }
    Ok(found)
}

/// Once a prefix of the entries is in error, so are all entries.
pub proof fn lemma_error_persists(attrs: Seq<AttrEntry>, k: int)
    requires
        0 <= k <= attrs.len(),
        attrs_meaning(attrs.subrange(0, k)) is Err,
    ensures
        attrs_meaning(attrs) == attrs_meaning(attrs.subrange(0, k)),
    decreases attrs.len() - k,
{
    if k < attrs.len() {
        assert(attrs.subrange(0, k + 1).drop_last() == attrs.subrange(0, k));
        lemma_error_persists(attrs, k + 1);
    } else {
        assert(attrs.subrange(0, k) == attrs);
    }
}

} // verus!
