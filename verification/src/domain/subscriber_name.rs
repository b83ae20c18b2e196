use unicode_segmentation::UnicodeSegmentation;
use vstd::prelude::*;
use vstd::string::StrSliceExecFns;
use vstd::string::StringExecFns;

verus! {

/// Whitespace as `char::is_whitespace` classifies it: the Unicode
/// `White_Space` property of the character.
pub uninterp spec fn is_space(c: char) -> bool;

/// Relies on `char::is_whitespace`: whether the character has the Unicode
/// `White_Space` property, a fixed classification of the character alone.
pub assume_specification[ char::is_whitespace ](c: char) -> (b: bool)
    ensures
        b == is_space(c),
;

/// Number of extended grapheme clusters (user-perceived characters) in the
/// text.
pub uninterp spec fn grapheme_count_of(s: Seq<char>) -> nat;

/// Relies on unicode_segmentation's `graphemes(true)`: the iterator over
/// extended grapheme clusters, whose segmentation depends on the characters
/// alone.
#[verifier::external_body]
fn grapheme_count(s: &str) -> (n: usize)
    ensures
        n as nat == grapheme_count_of(s@),
{
    s.graphemes(true).count()
}

/// The text is empty or consists of whitespace only; equivalently, trimming
/// it leaves nothing.
pub open spec fn all_whitespace(s: Seq<char>) -> bool {
    forall|i: int| 0 <= i < s.len() ==> is_space(#[trigger] s[i])
}

/// The character is one that a name may not contain.
pub open spec fn is_forbidden(c: char) -> bool {
    ||| c == '/'
    ||| c == '('
    ||| c == ')'
    ||| c == '"'
    ||| c == '<'
    ||| c == '>'
    ||| c == '\\'
    ||| c == '{'
    ||| c == '}'
}

/// Some forbidden character appears somewhere in the text.
pub open spec fn has_forbidden(s: Seq<char>) -> bool {
    exists|i: int| 0 <= i < s.len() && is_forbidden(#[trigger] s[i])
}

/// The validation rule for subscriber names: non-blank, at most 256
/// user-perceived characters, and free of forbidden characters.
pub open spec fn name_valid(s: Seq<char>) -> bool {
    &&& !all_whitespace(s)
    &&& grapheme_count_of(s) <= 256
    &&& !has_forbidden(s)
}

/// What a rejected name's error message appends to the raw input.
pub open spec fn name_error_tail() -> Seq<char> {
    " is not a valid subscriber name."@
}

fn forbidden_char(c: char) -> (b: bool)
    ensures
        b == is_forbidden(c),
{
    c == '/' || c == '(' || c == ')' || c == '"' || c == '<' || c == '>' || c == '\\' || c == '{'
        || c == '}'
}

fn is_whitespace_only(s: &str) -> (b: bool)
    ensures
        b == all_whitespace(s@),
{
    let n = s.unicode_len();
    let mut i: usize = 0;
    while i < n
        invariant
            n == s@.len(),
            i <= n,
            forall|j: int| 0 <= j < i ==> is_space(#[trigger] s@[j]),
        decreases n - i,
    {
        if !s.get_char(i).is_whitespace() {
            assert(!is_space(s@[i as int]));
            return false;
        }
        i += 1;
    }
    true
}

fn contains_forbidden(s: &str) -> (b: bool)
    ensures
        b == has_forbidden(s@),
{
    let n = s.unicode_len();
    let mut i: usize = 0;
    while i < n
        invariant
            n == s@.len(),
            i <= n,
            forall|j: int| 0 <= j < i ==> !is_forbidden(#[trigger] s@[j]),
        decreases n - i,
    {
        if forbidden_char(s.get_char(i)) {
            assert(has_forbidden(s@));
            return true;
        }
        i += 1;
    }
    false
}

/// A subscriber name that is valid by construction: the validating `parse` is
/// the only way to obtain one, so downstream code never re-checks it.
#[derive(Debug)]
pub struct SubscriberName(String);

impl View for SubscriberName {
    type V = Seq<char>;

    closed spec fn view(&self) -> Seq<char> {
        self.0@
    }
}

impl SubscriberName {
    #[verifier::type_invariant]
    spec fn valid_by_construction(self) -> bool {
        name_valid(self@)
    }

    /// Validates raw text into a `SubscriberName`, or reports why it is not a
    /// valid name.
    pub fn parse(s: String) -> (r: Result<SubscriberName, String>)
        ensures
            r is Ok <==> name_valid(s@),
            r matches Ok(n) ==> n@ == s@,
            r matches Err(e) ==> e@ == s@ + name_error_tail(),
    {
        let is_empty_or_whitespace = is_whitespace_only(s.as_str());
        let is_too_long = grapheme_count(s.as_str()) > 256;
        let contains_forbidden_characters = contains_forbidden(s.as_str());

        if is_empty_or_whitespace || is_too_long || contains_forbidden_characters {
            Err(s.concat(" is not a valid subscriber name."))
        } else {
            Ok(SubscriberName(s))
        }
    }

    /// Reads the validated name back as text. Parse-then-trust: what comes
    /// out always satisfies the validation rule, with no re-check at the use
    /// site.
    pub fn as_ref(&self) -> (r: &str)
        ensures
            r@ == self@,
            name_valid(self@),
    {
        proof {
            use_type_invariant(&*self);
        }
        self.0.as_str()
    }
}

/// A text whose trimmed form is empty is never a valid name.
pub proof fn lemma_blank_name_invalid(s: Seq<char>)
    requires
        all_whitespace(s),
    ensures
        !name_valid(s),
{
}

/// The length rule sits exactly at 256 user-perceived characters: a text of
/// 256 grapheme clusters that is not blank and holds no forbidden character
/// is valid, while one of 257 grapheme clusters is rejected whatever else it
/// holds.
pub proof fn lemma_grapheme_boundary(s: Seq<char>)
    ensures
        grapheme_count_of(s) == 256 && !all_whitespace(s) && !has_forbidden(s) ==> name_valid(s),
        grapheme_count_of(s) == 257 ==> !name_valid(s),
{
}

/// A text holding any forbidden character is never a valid name.
pub proof fn lemma_forbidden_character_invalid(s: Seq<char>, i: int)
    requires
        0 <= i < s.len(),
        is_forbidden(s[i]),
    ensures
        !name_valid(s),
{
    assert(has_forbidden(s));
}

/// Name validation is a pure function of the text: two runs on the same raw
/// input always agree on acceptance, so `SubscriberName::parse` is
/// idempotent in its success or failure.
pub proof fn lemma_name_validation_deterministic(s1: Seq<char>, s2: Seq<char>)
    requires
        s1 == s2,
    ensures
        name_valid(s1) == name_valid(s2),
{
}

} // verus!
