//! The text forms of model and unit identifiers: their parts joined by `/`,
//! as in `distopik/dual1084` or `distopik/dual1084/1`.
use vstd::prelude::*;

use crate::ids::{FixedInstanceId, ModelId};
use crate::pad_text::append_str;

verus! {

/// `s` split at its first `/`: the text before it and the text after it.
pub open spec fn split_at_slash(s: Seq<char>) -> Option<(Seq<char>, Seq<char>)>
    decreases s.len(),
{
    if s.len() == 0 {
        None
    } else if s[0] == '/' {
        Some((Seq::<char>::empty(), s.drop_first()))
    } else {
        match split_at_slash(s.drop_first()) {
            Some((before, after)) => Some((seq![s[0]] + before, after)),
            None => None,
        }
    }
}

/// The first part of `s`: the text before its first `/`, or all of it.
pub open spec fn first_part(s: Seq<char>) -> Seq<char> {
    match split_at_slash(s) {
        Some((before, _)) => before,
        None => s,
    }
}

/// The manufacturer and name that text `s` gives: its first two parts; any
/// further parts are ignored.
pub open spec fn parse_model_id_text(s: Seq<char>) -> Option<(Seq<char>, Seq<char>)> {
    match split_at_slash(s) {
        Some((manufacturer, rest)) => Some((manufacturer, first_part(rest))),
        None => None,
    }
}

/// The manufacturer, name and instance that text `s` gives: its first three
/// parts; any further parts are ignored.
pub open spec fn parse_fixed_instance_id_text(s: Seq<char>) -> Option<(Seq<char>, Seq<char>, Seq<char>)> {
    match split_at_slash(s) {
        Some((manufacturer, rest)) => match split_at_slash(rest) {
            Some((name, rest)) => Some((manufacturer, name, first_part(rest))),
            None => None,
        },
        None => None,
    }
}

pub open spec fn has_slash(s: Seq<char>) -> bool {
    exists|i: int| 0 <= i < s.len() && s[i] == '/'
}

/// Where `s` holds its first `/` at `i`, splitting gives what lies on each
/// side; where it holds none, there is nothing to split.
proof fn lemma_split_at(s: Seq<char>, i: int)
    requires
        0 <= i <= s.len(),
        forall|j: int| 0 <= j < i ==> s[j] != '/',
    ensures
        i < s.len() && s[i] == '/' ==> split_at_slash(s) == Some(
            (s.subrange(0, i), s.subrange(i + 1, s.len() as int)),
        ),
        i == s.len() ==> split_at_slash(s) is None,
    decreases i,
{
    if i > 0 {
        lemma_split_at(s.drop_first(), i - 1);
        assert(seq![s[0]] + s.drop_first().subrange(0, i - 1) =~= s.subrange(0, i));
        if i < s.len() {
            assert(s.drop_first().subrange(i, s.drop_first().len() as int) =~= s.subrange(
                i + 1,
                s.len() as int,
            ));
        }
    }
}

proof fn lemma_split_joined(a: Seq<char>, b: Seq<char>)
    requires
        !has_slash(a),
    ensures
        split_at_slash(a + seq!['/'] + b) == Some((a, b)),
{
    let s = a + seq!['/'] + b;
    assert forall|j: int| 0 <= j < a.len() implies s[j] != '/' by {
        assert(s[j] == a[j]);
    }
    lemma_split_at(s, a.len() as int);
    assert(s.subrange(0, a.len() as int) =~= a);
    assert(s.subrange(a.len() as int + 1, s.len() as int) =~= b);
}

proof fn lemma_first_part_whole(a: Seq<char>)
    requires
        !has_slash(a),
    ensures
        first_part(a) == a,
{
    lemma_split_at(a, a.len() as int);
}

/// The text of a model identifier.
pub open spec fn model_id_text(id: (Seq<char>, Seq<char>)) -> Seq<char> {
    id.0 + seq!['/'] + id.1
}

/// The text of a unit identifier.
pub open spec fn fixed_instance_id_text(id: (Seq<char>, Seq<char>, Seq<char>)) -> Seq<char> {
    id.0 + seq!['/'] + id.1 + seq!['/'] + id.2
}

/// Reading the text of a model identifier whose parts hold no `/` gives
/// back that identifier.
pub proof fn lemma_model_id_round_trip(id: (Seq<char>, Seq<char>))
    requires
        !has_slash(id.0),
        !has_slash(id.1),
    ensures
        parse_model_id_text(model_id_text(id)) == Some(id),
{
    lemma_split_joined(id.0, id.1);
    lemma_first_part_whole(id.1);
}

/// Reading the text of a unit identifier whose parts hold no `/` gives back
/// that identifier.
pub proof fn lemma_fixed_instance_id_round_trip(id: (Seq<char>, Seq<char>, Seq<char>))
    requires
        !has_slash(id.0),
        !has_slash(id.1),
        !has_slash(id.2),
    ensures
        parse_fixed_instance_id_text(fixed_instance_id_text(id)) == Some(id),
{
    assert(fixed_instance_id_text(id) =~= id.0 + seq!['/'] + (id.1 + seq!['/'] + id.2));
    lemma_split_joined(id.0, id.1 + seq!['/'] + id.2);
    lemma_split_joined(id.1, id.2);
    lemma_first_part_whole(id.2);
}

/// Text that lacks one of the parts of an identifier.
#[derive(Clone, Copy, Debug, PartialEq, Eq, Structural)]
pub enum IdTextError {
    MissingPart,
}

/// Index of the first `/` in `s` at or after `from`, or the length of `s`.
fn slash_from(s: &str, from: usize) -> (r: usize)
    requires
        from <= s@.len(),
    ensures
        from <= r <= s@.len(),
        forall|j: int| from <= j < r ==> s@[j] != '/',
        r < s@.len() ==> s@[r as int] == '/',
{
    let n = s.unicode_len();
    let mut i = from;
    while i < n
        invariant
            n == s@.len(),
            from <= i <= n,
            forall|j: int| from <= j < i ==> s@[j] != '/',
        decreases n - i,
    {
        if s.get_char(i) == '/' {
            return i;
        }
        i = i + 1;
    }
    i
}

/// Splits `s` at its first `/`.
fn split_str(s: &str) -> (r: Option<(&str, &str)>)
    ensures
        match r {
            Some((a, b)) => split_at_slash(s@) == Some((a@, b@)),
            None => split_at_slash(s@) is None,
        },
{
    let n = s.unicode_len();
    let i = slash_from(s, 0);
    proof {
        lemma_split_at(s@, i as int);
    }
    if i == n {
        None
    } else {
        Some((s.substring_char(0, i), s.substring_char(i + 1, n)))
    }
}

/// The first part of `s`.
fn first_part_str(s: &str) -> (r: &str)
    ensures
        r@ == first_part(s@),
{
    match split_str(s) {
        Some((a, _)) => a,
        None => s,
    }
}

impl ModelId {
    /// The text form: manufacturer and name, joined by `/`.
    pub fn to_text(&self) -> (r: String)
        ensures
            r@ == model_id_text(self@),
    {
        let mut text = self.manufacturer.clone();
        proof {
            reveal_strlit("/");
        }
        append_str(&mut text, "/");
        append_str(&mut text, self.name.as_str());
        assert(text@ =~= model_id_text(self@));
        text
    }

    /// The model identifier that text `s` gives.
    pub fn from_text(s: &str) -> (r: Result<ModelId, IdTextError>)
        ensures
            match parse_model_id_text(s@) {
                Some(id) => r matches Ok(m) && m@ == id,
                None => r == Err::<ModelId, IdTextError>(IdTextError::MissingPart),
            },
    {
        match split_str(s) {
            None => Err(IdTextError::MissingPart),
            Some((manufacturer, rest)) => Ok(
                ModelId::new(manufacturer.to_owned(), first_part_str(rest).to_owned()),
            ),
        }
    }
}

impl FixedInstanceId {
    /// The text form: manufacturer, name and instance, joined by `/`.
    pub fn to_text(&self) -> (r: String)
        ensures
            r@ == fixed_instance_id_text(self@),
    {
        let mut text = self.manufacturer.clone();
        proof {
            reveal_strlit("/");
        }
        append_str(&mut text, "/");
        append_str(&mut text, self.name.as_str());
        append_str(&mut text, "/");
        append_str(&mut text, self.instance.as_str());
        assert(text@ =~= fixed_instance_id_text(self@));
        text
    }

    /// The unit identifier that text `s` gives.
    pub fn from_text(s: &str) -> (r: Result<FixedInstanceId, IdTextError>)
        ensures
            match parse_fixed_instance_id_text(s@) {
                Some(id) => r matches Ok(f) && f@ == id,
                None => r == Err::<FixedInstanceId, IdTextError>(IdTextError::MissingPart),
            },
    {
        match split_str(s) {
            None => Err(IdTextError::MissingPart),
            Some((manufacturer, rest)) => match split_str(rest) {
                None => Err(IdTextError::MissingPart),
                Some((name, rest)) => Ok(
                    FixedInstanceId::new(
                        manufacturer.to_owned(),
                        name.to_owned(),
                        first_part_str(rest).to_owned(),
                    ),
                ),
            },
        }
    }
}

} // verus!
