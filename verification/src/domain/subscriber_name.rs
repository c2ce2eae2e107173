use unicode_segmentation::UnicodeSegmentation;
use vstd::prelude::*;

use crate::domain::validation_error::ValidationError;

verus! {

/// The most user-perceived characters a name may have.
pub const MAX_NAME_GRAPHEMES: usize = 256;

/// The number of extended grapheme clusters in `s`, as Unicode's text
/// segmentation rules count them.
pub uninterp spec fn grapheme_count(s: Seq<char>) -> nat;

/// Whether `c` has Unicode's `White_Space` property.
pub uninterp spec fn is_whitespace(c: char) -> bool;

/// `unicode_segmentation::UnicodeSegmentation::graphemes`, counted: the number
/// of extended grapheme clusters of `s`. Trusted: the count is the crate's, and
/// depends on the text alone.
#[verifier::external_body]
fn count_graphemes(s: &str) -> (n: usize)
    ensures
        n == grapheme_count(s@),
{
    s.graphemes(true).count()
}

/// `char::is_whitespace` tells whether a character has the `White_Space`
/// property. Trusted: the answer is std's.
pub assume_specification[ char::is_whitespace ](c: char) -> (b: bool)
    ensures
        b == is_whitespace(c),
;

/// The characters no name may hold.
pub open spec fn is_forbidden(c: char) -> bool {
    c == '/' || c == '(' || c == ')' || c == '"' || c == '<' || c == '>' || c == '\\' || c == '{'
        || c == '}'
}

/// Every character of `s` is whitespace.
pub open spec fn is_blank(s: Seq<char>) -> bool {
    forall|i: int| 0 <= i < s.len() ==> is_whitespace(#[trigger] s[i])
}

/// `s` without the whitespace at its start.
pub open spec fn trim_start(s: Seq<char>) -> Seq<char>
    decreases s.len(),
{
    if s.len() > 0 && is_whitespace(s[0]) {
        trim_start(s.drop_first())
    } else {
        s
    }
}

/// `s` without the whitespace at its end.
pub open spec fn trim_end(s: Seq<char>) -> Seq<char>
    decreases s.len(),
{
    if s.len() > 0 && is_whitespace(s.last()) {
        trim_end(s.drop_last())
    } else {
        s
    }
}

/// `s` without the whitespace at its start and at its end.
pub open spec fn trimmed(s: Seq<char>) -> Seq<char> {
    trim_end(trim_start(s))
}

/// Some character of `s` is forbidden.
pub open spec fn has_forbidden(s: Seq<char>) -> bool {
    exists|i: int| 0 <= i < s.len() && is_forbidden(#[trigger] s[i])
}

/// What makes a name acceptable, given the number of its graphemes.
pub open spec fn name_is_valid(s: Seq<char>, graphemes: nat) -> bool {
    &&& trimmed(s).len() > 0
    &&& graphemes <= MAX_NAME_GRAPHEMES
    &&& !has_forbidden(s)
}

/// The reason given for a name that was turned down.
pub open spec fn name_rejection() -> Seq<char> {
    "is not a valid subscriber name."@
}

proof fn trim_start_of_blank(s: Seq<char>)
    ensures
        trim_start(s).len() == 0 <==> is_blank(s),
        trim_start(s).len() > 0 ==> !is_whitespace(trim_start(s)[0]),
    decreases s.len(),
{
    if s.len() > 0 && is_whitespace(s[0]) {
        let rest = s.drop_first();
        trim_start_of_blank(rest);
        if is_blank(s) {
            assert forall|i: int| 0 <= i < rest.len() implies is_whitespace(#[trigger] rest[i]) by {
                assert(rest[i] == s[i + 1]);
            }
        }
        if is_blank(rest) {
            assert forall|i: int| 0 <= i < s.len() implies is_whitespace(#[trigger] s[i]) by {
                if i > 0 {
                    assert(s[i] == rest[i - 1]);
                }
            }
        }
    } else if s.len() > 0 {
        assert(!is_whitespace(s[0]));
    }
}

proof fn trim_end_of_blank(s: Seq<char>)
    ensures
        trim_end(s).len() == 0 <==> is_blank(s),
    decreases s.len(),
{
    if s.len() > 0 && is_whitespace(s.last()) {
        let rest = s.drop_last();
        trim_end_of_blank(rest);
        if is_blank(s) {
            assert forall|i: int| 0 <= i < rest.len() implies is_whitespace(#[trigger] rest[i]) by {
                assert(rest[i] == s[i]);
            }
        }
        if is_blank(rest) {
            assert forall|i: int| 0 <= i < s.len() implies is_whitespace(#[trigger] s[i]) by {
                if i < rest.len() {
                    assert(s[i] == rest[i]);
                }
            }
        }
    } else if s.len() > 0 {
        assert(!is_whitespace(s[s.len() - 1]));
    }
}

/// Trimming leaves nothing of a text exactly when all of its characters are
/// whitespace.
pub proof fn blank_is_trimmed_to_nothing(s: Seq<char>)
    ensures
        trimmed(s).len() == 0 <==> is_blank(s),
{
    let start = trim_start(s);
    trim_start_of_blank(s);
    trim_end_of_blank(start);
    if start.len() > 0 {
        assert(!is_whitespace(start[0]));
    }
}

proof fn blank_with_one_more(s: Seq<char>, c: char)
    ensures
        is_blank(s.push(c)) == (is_blank(s) && is_whitespace(c)),
{
    let more = s.push(c);
    if is_blank(more) {
        assert forall|k: int| 0 <= k < s.len() implies is_whitespace(#[trigger] s[k]) by {
            assert(more[k] == s[k]);
        }
        assert(more[s.len() as int] == c);
    }
}

proof fn forbidden_with_one_more(s: Seq<char>, c: char)
    ensures
        has_forbidden(s.push(c)) == (has_forbidden(s) || is_forbidden(c)),
{
    let more = s.push(c);
    if has_forbidden(s) {
        let k = choose|k: int| 0 <= k < s.len() && is_forbidden(#[trigger] s[k]);
        assert(more[k] == s[k]);
    }
    if is_forbidden(c) {
        assert(more[s.len() as int] == c);
    }
    if has_forbidden(more) {
        let k = choose|k: int| 0 <= k < more.len() && is_forbidden(#[trigger] more[k]);
        if k < s.len() {
            assert(s[k] == more[k]);
        }
    }
}

/// Tells whether `c` is one of the forbidden characters.
pub fn forbidden(c: char) -> (b: bool)
    ensures
        b == is_forbidden(c),
{
    c == '/' || c == '(' || c == ')' || c == '"' || c == '<' || c == '>' || c == '\\' || c == '{'
        || c == '}'
}

/// Decides whether `s` may be a name, given the number of its graphemes. All
/// three conditions are looked at; any one of them is enough to refuse.
pub fn acceptable(s: &str, graphemes: usize) -> (b: bool)
    ensures
        b == name_is_valid(s@, graphemes as nat),
{
    let mut blank = true;
    let mut tainted = false;
    for c in it: s.chars()
        invariant
            it.seq() == s@,
            blank == is_blank(s@.take(it.index())),
            tainted == has_forbidden(s@.take(it.index())),
    {
        proof {
            let before = s@.take(it.index());
            assert(s@.take(it.index() + 1) =~= before.push(c));
            blank_with_one_more(before, c);
            forbidden_with_one_more(before, c);
        }
        blank = blank && c.is_whitespace();
        tainted = tainted || forbidden(c);
    }
    assert(s@.take(s@.len() as int) =~= s@);
    proof {
        blank_is_trimmed_to_nothing(s@);
    }
    let too_long = graphemes > MAX_NAME_GRAPHEMES;
    !(blank || too_long || tainted)
}

/// The name of a subscriber. A value of this type is a valid name: trimmed
/// it is not empty, it has at most 256 graphemes, and it holds no forbidden
/// character.
#[derive(Debug)]
pub struct SubscriberName {
    text: String,
}

impl View for SubscriberName {
    type V = Seq<char>;

    closed spec fn view(&self) -> Seq<char> {
        self.text@
    }
}

impl SubscriberName {
    #[verifier::type_invariant]
    spec fn well_formed(self) -> bool {
        name_is_valid(self.text@, grapheme_count(self.text@))
    }

    /// Makes a name of `s`, or says why it cannot be one. The text is kept as
    /// it came: nothing is trimmed or replaced.
    pub fn parse(s: String) -> (r: Result<SubscriberName, ValidationError>)
        ensures
            r is Ok <==> name_is_valid(s@, grapheme_count(s@)),
            r matches Ok(name) ==> name@ == s@,
            r matches Err(e) ==> e.value@ == s@ && e.reason@ == name_rejection(),
    {
        let graphemes = count_graphemes(s.as_str());
        if acceptable(s.as_str(), graphemes) {
            Ok(SubscriberName { text: s })
        } else {
            Err(ValidationError::new(s, "is not a valid subscriber name."))
        }
    }

    /// The name as text. Whatever name is at hand, it is a valid one.
    pub fn as_ref(&self) -> (s: &str)
        ensures
            s@ == self@,
            name_is_valid(self@, grapheme_count(self@)),
    {
        proof {
            use_type_invariant(self);
        }
        self.text.as_str()
    }
}

impl AsRef<str> for SubscriberName {
    fn as_ref(&self) -> (s: &str)
        ensures
            s@ == self@,
    {
        self.text.as_str()
    }
}

impl Clone for SubscriberName {
    fn clone(&self) -> (copy: Self)
        ensures
            copy@ == self@,
    {
        proof {
            use_type_invariant(self);
        }
        SubscriberName { text: self.text.clone() }
    }
}

} // verus!
