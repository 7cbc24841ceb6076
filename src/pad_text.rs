//! The text form of pad identifiers: three letters for the node kind, three
//! for the direction and the node identifier, joined by colons, such as
//! `mix:inp:<id>` or `trk:out:<id>`.
use vstd::prelude::*;

use crate::ids::{DynamicInstanceNodeId, FixedInstanceNodeId, MixerNodeId, TrackNodeId};
use crate::task::{DestinationPadId, NodePadId, PadKind, SourcePadId};

verus! {

/// Relies on `String::push_str`: the characters of `tail` are appended after
/// those that `s` already holds.
#[verifier::external_body]
pub(crate) fn append_str(s: &mut String, tail: &str)
    ensures
        final(s)@ == old(s)@ + tail@,
{
    s.push_str(tail)
}

/// The three letters that name the node kind of a pad.
pub open spec fn kind_code(kind: PadKind) -> Seq<char> {
    match kind {
        PadKind::MixerInput | PadKind::MixerOutput => seq!['m', 'i', 'x'],
        PadKind::FixedInstanceInput | PadKind::FixedInstanceOutput => seq!['f', 'i', 'x'],
        PadKind::DynamicInstanceInput | PadKind::DynamicInstanceOutput => seq!['d', 'y', 'n'],
        PadKind::TrackOutput => seq!['t', 'r', 'k'],
    }
}

/// The three letters that name the direction of a pad.
pub open spec fn direction_code(kind: PadKind) -> Seq<char> {
    if kind.spec_is_input() {
        seq!['i', 'n', 'p']
    } else {
        seq!['o', 'u', 't']
    }
}

/// The text of a pad identifier.
pub open spec fn pad_text(pad: (PadKind, Seq<char>)) -> Seq<char> {
    kind_code(pad.0) + seq![':'] + direction_code(pad.0) + seq![':'] + pad.1
}

/// The pad kind that a node-kind code and a direction code name, if any.
pub open spec fn kind_of_codes(kind: Seq<char>, direction: Seq<char>) -> Option<PadKind> {
    if kind == seq!['m', 'i', 'x'] && direction == seq!['i', 'n', 'p'] {
        Some(PadKind::MixerInput)
    } else if kind == seq!['m', 'i', 'x'] && direction == seq!['o', 'u', 't'] {
        Some(PadKind::MixerOutput)
    } else if kind == seq!['f', 'i', 'x'] && direction == seq!['i', 'n', 'p'] {
        Some(PadKind::FixedInstanceInput)
    } else if kind == seq!['f', 'i', 'x'] && direction == seq!['o', 'u', 't'] {
        Some(PadKind::FixedInstanceOutput)
    } else if kind == seq!['d', 'y', 'n'] && direction == seq!['i', 'n', 'p'] {
        Some(PadKind::DynamicInstanceInput)
    } else if kind == seq!['d', 'y', 'n'] && direction == seq!['o', 'u', 't'] {
        Some(PadKind::DynamicInstanceOutput)
    } else if kind == seq!['t', 'r', 'k'] && direction == seq!['o', 'u', 't'] {
        Some(PadKind::TrackOutput)
    } else {
        None
    }
}

/// The pad that text `s` names, if it names one: a known pair of codes,
/// each followed by a colon, and then the node identifier, which is the rest
/// of the text.
pub open spec fn parse_pad_text(s: Seq<char>) -> Option<(PadKind, Seq<char>)> {
    if s.len() >= 8 && s[3] == ':' && s[7] == ':' {
        match kind_of_codes(s.subrange(0, 3), s.subrange(4, 7)) {
            Some(kind) => Some((kind, s.subrange(8, s.len() as int))),
            None => None,
        }
    } else {
        None
    }
}

/// Reading the text of a pad gives back that pad.
pub proof fn lemma_pad_round_trip(pad: (PadKind, Seq<char>))
    ensures
        parse_pad_text(pad_text(pad)) == Some(pad),
{
    let s = pad_text(pad);
    assert(s.subrange(0, 3) =~= kind_code(pad.0));
    assert(s.subrange(4, 7) =~= direction_code(pad.0));
    assert(s.subrange(8, s.len() as int) =~= pad.1);
    assert(s[3] == ':');
    assert(s[7] == ':');
}

/// Text that does not name a pad.
#[derive(Clone, Copy, Debug, PartialEq, Eq, Structural)]
pub enum PadIdError {
    Malformed,
}

fn kind_from_codes(k0: char, k1: char, k2: char, d0: char, d1: char, d2: char) -> (r: Option<PadKind>)
    ensures
        r == kind_of_codes(seq![k0, k1, k2], seq![d0, d1, d2]),
{
    let input = d0 == 'i' && d1 == 'n' && d2 == 'p';
    let output = d0 == 'o' && d1 == 'u' && d2 == 't';
    proof {
        assert(input == (seq![d0, d1, d2] =~= seq!['i', 'n', 'p']));
        assert(output == (seq![d0, d1, d2] =~= seq!['o', 'u', 't']));
        assert((k0 == 'm' && k1 == 'i' && k2 == 'x') == (seq![k0, k1, k2] =~= seq!['m', 'i', 'x']));
        assert((k0 == 'f' && k1 == 'i' && k2 == 'x') == (seq![k0, k1, k2] =~= seq!['f', 'i', 'x']));
        assert((k0 == 'd' && k1 == 'y' && k2 == 'n') == (seq![k0, k1, k2] =~= seq!['d', 'y', 'n']));
        assert((k0 == 't' && k1 == 'r' && k2 == 'k') == (seq![k0, k1, k2] =~= seq!['t', 'r', 'k']));
    }
    if k0 == 'm' && k1 == 'i' && k2 == 'x' {
        if input {
            Some(PadKind::MixerInput)
        } else if output {
            Some(PadKind::MixerOutput)
        } else {
            None
        }
    } else if k0 == 'f' && k1 == 'i' && k2 == 'x' {
        if input {
            Some(PadKind::FixedInstanceInput)
        } else if output {
            Some(PadKind::FixedInstanceOutput)
        } else {
            None
        }
    } else if k0 == 'd' && k1 == 'y' && k2 == 'n' {
        if input {
            Some(PadKind::DynamicInstanceInput)
        } else if output {
            Some(PadKind::DynamicInstanceOutput)
        } else {
            None
        }
    } else if k0 == 't' && k1 == 'r' && k2 == 'k' && output {
        Some(PadKind::TrackOutput)
    } else {
        None
    }
}

impl NodePadId {
    /// The pad of kind `kind` on the node named `id`.
    pub fn from_kind(kind: PadKind, id: String) -> (r: NodePadId)
        ensures
            r@ == (kind, id@),
    {
        match kind {
            PadKind::MixerInput => NodePadId::MixerInput(MixerNodeId::new(id)),
            PadKind::MixerOutput => NodePadId::MixerOutput(MixerNodeId::new(id)),
            PadKind::FixedInstanceInput => NodePadId::FixedInstanceInput(FixedInstanceNodeId::new(id)),
            PadKind::FixedInstanceOutput => NodePadId::FixedInstanceOutput(
                FixedInstanceNodeId::new(id),
            ),
            PadKind::DynamicInstanceInput => NodePadId::DynamicInstanceInput(
                DynamicInstanceNodeId::new(id),
            ),
            PadKind::DynamicInstanceOutput => NodePadId::DynamicInstanceOutput(
                DynamicInstanceNodeId::new(id),
            ),
            PadKind::TrackOutput => NodePadId::TrackOutput(TrackNodeId::new(id)),
        }
    }

    /// The identifier of the node the pad belongs to.
    pub fn node_id_str(&self) -> (r: &str)
        ensures
            r@ == self@.1,
    {
        match self {
            NodePadId::MixerInput(id) => id.as_str(),
            NodePadId::MixerOutput(id) => id.as_str(),
            NodePadId::FixedInstanceInput(id) => id.as_str(),
            NodePadId::FixedInstanceOutput(id) => id.as_str(),
            NodePadId::DynamicInstanceInput(id) => id.as_str(),
            NodePadId::DynamicInstanceOutput(id) => id.as_str(),
            NodePadId::TrackOutput(id) => id.as_str(),
        }
    }

    /// The text form of the pad.
    pub fn serialize(&self) -> (r: String)
        ensures
            r@ == pad_text(self@),
    {
        let prefix: &str = match self.kind() {
            PadKind::MixerInput => {
                proof {
                    reveal_strlit("mix:inp:");
                }
                "mix:inp:"
            },
            PadKind::MixerOutput => {
                proof {
                    reveal_strlit("mix:out:");
                }
                "mix:out:"
            },
            PadKind::FixedInstanceInput => {
                proof {
                    reveal_strlit("fix:inp:");
                }
                "fix:inp:"
            },
            PadKind::FixedInstanceOutput => {
                proof {
                    reveal_strlit("fix:out:");
                }
                "fix:out:"
            },
            PadKind::DynamicInstanceInput => {
                proof {
                    reveal_strlit("dyn:inp:");
                }
                "dyn:inp:"
            },
            PadKind::DynamicInstanceOutput => {
                proof {
                    reveal_strlit("dyn:out:");
                }
                "dyn:out:"
            },
            PadKind::TrackOutput => {
                proof {
                    reveal_strlit("trk:out:");
                }
                "trk:out:"
            },
        };
        assert(prefix@ =~= kind_code(self@.0) + seq![':'] + direction_code(self@.0) + seq![':']);
        let mut text = String::new();
        append_str(&mut text, prefix);
        append_str(&mut text, self.node_id_str());
        assert(text@ =~= pad_text(self@));
        text
    }

    /// The pad that text `s` names.
    pub fn deserialize(s: &str) -> (r: Result<NodePadId, PadIdError>)
        ensures
            match parse_pad_text(s@) {
                Some(pad) => r matches Ok(p) && p@ == pad,
                None => r == Err::<NodePadId, PadIdError>(PadIdError::Malformed),
            },
    {
        let len = s.unicode_len();
        if len < 8 {
            return Err(PadIdError::Malformed);
        }
        if s.get_char(3) != ':' || s.get_char(7) != ':' {
            return Err(PadIdError::Malformed);
        }
        let kind = kind_from_codes(
            s.get_char(0),
            s.get_char(1),
            s.get_char(2),
            s.get_char(4),
            s.get_char(5),
            s.get_char(6),
        );
        assert(s@.subrange(0, 3) =~= seq![s@[0], s@[1], s@[2]]);
        assert(s@.subrange(4, 7) =~= seq![s@[4], s@[5], s@[6]]);
        match kind {
            None => Err(PadIdError::Malformed),
            Some(kind) => {
                let rest = s.substring_char(8, len).to_owned();
                Ok(NodePadId::from_kind(kind, rest))
            },
        }
    }
}

/// The word that names the node kind of a pad in its display form.
pub open spec fn node_word(kind: PadKind) -> Seq<char> {
    match kind {
        PadKind::MixerInput | PadKind::MixerOutput => "mixer"@,
        PadKind::FixedInstanceInput | PadKind::FixedInstanceOutput => "fixed"@,
        PadKind::DynamicInstanceInput | PadKind::DynamicInstanceOutput => "dynamic"@,
        PadKind::TrackOutput => "track"@,
    }
}

/// The display form of a source or destination pad: the node kind, a colon
/// and the node identifier.
pub open spec fn pad_display(pad: (PadKind, Seq<char>)) -> Seq<char> {
    node_word(pad.0) + ":"@ + pad.1
}

fn display_of(word: &str, id: &str) -> (r: String)
    ensures
        r@ == word@ + ":"@ + id@,
{
    let mut text = word.to_owned();
    append_str(&mut text, ":");
    append_str(&mut text, id);
    text
}

impl SourcePadId {
    pub fn to_string(&self) -> (r: String)
        ensures
            r@ == pad_display(self@),
    {
        match self {
            SourcePadId::MixerOutput(id) => display_of("mixer", id.as_str()),
            SourcePadId::FixedInstanceOutput(id) => display_of("fixed", id.as_str()),
            SourcePadId::DynamicInstanceOutput(id) => display_of("dynamic", id.as_str()),
            SourcePadId::TrackOutput(id) => display_of("track", id.as_str()),
        }
    }
}

impl DestinationPadId {
    pub fn to_string(&self) -> (r: String)
        ensures
            r@ == pad_display(self@),
    {
        match self {
            DestinationPadId::MixerInput(id) => display_of("mixer", id.as_str()),
            DestinationPadId::FixedInstanceInput(id) => display_of("fixed", id.as_str()),
            DestinationPadId::DynamicInstanceInput(id) => display_of("dynamic", id.as_str()),
        }
    }
}

} // verus!
