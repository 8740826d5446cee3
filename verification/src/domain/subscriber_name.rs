use crate::text::chars_of;
use vstd::prelude::*;

verus! {

/// The most grapheme clusters a subscriber's name may have.
pub const MAX_NAME_GRAPHEMES: usize = 256;

/// The number of extended grapheme clusters of a text, as Unicode's rules for
/// text segmentation split it.
pub uninterp spec fn grapheme_count(text: Seq<char>) -> nat;

/// Counts the extended grapheme clusters of `text` with
/// `unicode_segmentation::UnicodeSegmentation::graphemes`. The count depends
/// on the text alone; it is believed to be `grapheme_count` of it, not proved.
#[verifier::external_body]
fn count_graphemes(text: &str) -> (count: usize)
    ensures
        count as nat == grapheme_count(text@),
{
    unicode_segmentation::UnicodeSegmentation::graphemes(text, true).count()
}

/// Whether `c` has Unicode's White_Space property.
pub open spec fn is_white_space(c: char) -> bool {
    ||| '\u{0009}' <= c <= '\u{000D}'
    ||| c == '\u{0020}'
    ||| c == '\u{0085}'
    ||| c == '\u{00A0}'
    ||| c == '\u{1680}'
    ||| '\u{2000}' <= c <= '\u{200A}'
    ||| c == '\u{2028}'
    ||| c == '\u{2029}'
    ||| c == '\u{202F}'
    ||| c == '\u{205F}'
    ||| c == '\u{3000}'
}

/// Whether `c` is one of the characters that no name may hold:
/// `/ ( ) " < > \ { }`.
pub open spec fn is_forbidden(c: char) -> bool {
    ||| c == '/'
    ||| c == '('
    ||| c == ')'
    ||| c == '"'
    ||| c == '<'
    ||| c == '>'
    ||| c == '\\'
    ||| c == '{'
    ||| c == '}'
}

/// Whether a text is empty or made of white space only.
pub open spec fn is_blank(text: Seq<char>) -> bool {
    forall|i: int| 0 <= i < text.len() ==> is_white_space(#[trigger] text[i])
}

/// Whether a text holds a forbidden character.
pub open spec fn has_forbidden(text: Seq<char>) -> bool {
    exists|i: int| 0 <= i < text.len() && is_forbidden(#[trigger] text[i])
}

/// Whether a text of `graphemes` grapheme clusters may be a name: it is not
/// blank, not longer than the limit, and free of forbidden characters.
pub open spec fn is_acceptable_name(text: Seq<char>, graphemes: nat) -> bool {
    &&& !is_blank(text)
    &&& graphemes <= MAX_NAME_GRAPHEMES
    &&& !has_forbidden(text)
}

/// Whether a text may be a subscriber's name.
pub open spec fn is_valid_name(text: Seq<char>) -> bool {
    is_acceptable_name(text, grapheme_count(text))
}

/// What `parse` answers for a text that is no name.
pub open spec fn name_rejection(text: Seq<char>) -> Seq<char> {
    text + " is not a valid subscriber name."@
}

/// Whether `c` has Unicode's White_Space property.
pub fn char_is_white_space(c: char) -> (white: bool)
    ensures
        white == is_white_space(c),
{
    ('\u{0009}' <= c && c <= '\u{000D}') || c == '\u{0020}' || c == '\u{0085}' || c == '\u{00A0}'
        || c == '\u{1680}' || ('\u{2000}' <= c && c <= '\u{200A}') || c == '\u{2028}' || c
        == '\u{2029}' || c == '\u{202F}' || c == '\u{205F}' || c == '\u{3000}'
}

/// Whether `c` is a character that no name may hold.
pub fn char_is_forbidden(c: char) -> (forbidden: bool)
    ensures
        forbidden == is_forbidden(c),
{
    c == '/' || c == '(' || c == ')' || c == '"' || c == '<' || c == '>' || c == '\\' || c == '{'
        || c == '}'
}

/// Decides whether `text`, which has `graphemes` grapheme clusters, may be a
/// name.
pub fn name_is_acceptable(text: &str, graphemes: usize) -> (acceptable: bool)
    ensures
        acceptable == is_acceptable_name(text@, graphemes as nat),
{
    let chars = chars_of(text);
    let mut blank = true;
    let mut forbidden = false;
    let mut i: usize = 0;
    while i < chars.len()
        invariant
            i <= chars.len(),
            chars@ == text@,
            blank == is_blank(text@.take(i as int)),
            forbidden == has_forbidden(text@.take(i as int)),
        decreases chars.len() - i,
    {
        let c = chars[i];
        let ghost before = text@.take(i as int);
        let ghost after = text@.take(i + 1);
        proof {
            assert(after == before.push(c));
            assert(forall|j: int| 0 <= j < before.len() ==> before[j] == after[j]);
            if has_forbidden(before) {
                let j = choose|j: int| 0 <= j < before.len() && is_forbidden(#[trigger] before[j]);
                assert(is_forbidden(after[j]));
            }
            if has_forbidden(after) && !is_forbidden(c) {
                let j = choose|j: int| 0 <= j < after.len() && is_forbidden(#[trigger] after[j]);
                assert(is_forbidden(before[j]));
            }
            if is_forbidden(c) {
                assert(is_forbidden(after[i as int]));
            }
            if !is_white_space(c) {
                assert(!is_white_space(after[i as int]));
            }
        }
        if !char_is_white_space(c) {
            blank = false;
        }
        if char_is_forbidden(c) {
            forbidden = true;
        }
        i += 1;
    }
    proof {
        assert(text@.take(i as int) == text@);
    }
    !blank && graphemes <= MAX_NAME_GRAPHEMES && !forbidden
}

/// Says that `text` is no name.
pub fn reject_name(text: String) -> (reason: String)
    ensures
        reason@ == name_rejection(text@),
{
    text.concat(" is not a valid subscriber name.")
}

/// A subscriber's display name: not blank, at most 256 grapheme clusters, and
/// free of the characters `/ ( ) " < > \ { }`.
#[derive(Debug)]
pub struct SubscriberName(String);

impl View for SubscriberName {
    type V = Seq<char>;

    closed spec fn view(&self) -> Seq<char> {
        self.0@
    }
}

impl SubscriberName {
    #[verifier::type_invariant]
    spec fn holds_a_name(self) -> bool {
        is_valid_name(self.0@)
    }

    /// Accepts `s` as a name if it is one, and says why not otherwise.
    pub fn parse(s: String) -> (parsed: Result<SubscriberName, String>)
        ensures
            is_valid_name(s@) ==> parsed is Ok && parsed->Ok_0@ == s@,
            !is_valid_name(s@) ==> parsed is Err && parsed->Err_0@ == name_rejection(s@),
    {
        let graphemes = count_graphemes(s.as_str());
        if name_is_acceptable(s.as_str(), graphemes) {
            Ok(SubscriberName(s))
        } else {
            Err(reject_name(s))
        }
    }

    /// The name as text. It is always a valid name.
    pub fn as_ref(&self) -> (text: &str)
        ensures
            text@ == self@,
            is_valid_name(self@),
    {
        proof {
            use_type_invariant(self);
        }
        self.0.as_str()
    }
}

impl Clone for SubscriberName {
    fn clone(&self) -> (copy: Self)
        ensures
            copy@ == self@,
    {
        proof {
            use_type_invariant(self);
        }
        SubscriberName(self.0.clone())
    }
}

} // verus!
