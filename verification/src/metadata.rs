//! Lineage metadata: the identity, correlation and causation identifiers
//! attached to every command and event as it is appended to a causal chain,
//! and the engine that computes them.

use vstd::prelude::*;
use vstd::string::StringExecFns;

verus! {

/// Identity, correlation and causation of one command or event.
///
/// Identifiers are 128-bit process-unique values. The identity is assigned
/// exactly once, when the item is bound to a transport envelope; the
/// correlation identifier is constant across a whole causal chain; the
/// causation identifier names the immediate predecessor.
#[derive(Clone, Copy, Debug, PartialEq, Eq)]
pub struct Metadata {
    pub(crate) id: Option<u128>,
    pub(crate) correlation_id: u128,
    pub(crate) causation_id: u128,
    pub(crate) is_event: bool,
}

/// The predecessor handed by reference, as a value.
pub open spec fn spec_previous(previous: Option<&Metadata>) -> Option<Metadata> {
    match previous {
        Some(p) => Some(*p),
        None => None,
    }
}

impl Metadata {
    /// The identity assigned when the item was bound to an envelope; `None`
    /// before that moment.
    pub open(crate) spec fn spec_id(self) -> Option<u128> {
        self.id
    }

    /// The identifier of the business transaction whose chain this item
    /// belongs to.
    pub open(crate) spec fn spec_correlation_id(self) -> u128 {
        self.correlation_id
    }

    /// The identity of the immediate predecessor that caused this item.
    pub open(crate) spec fn spec_causation_id(self) -> u128 {
        self.causation_id
    }

    /// Whether the item is an event (`true`) or a command (`false`).
    pub open(crate) spec fn spec_is_event(self) -> bool {
        self.is_event
    }

    pub fn new(id: Option<u128>, correlation_id: u128, causation_id: u128, is_event: bool) -> (r:
        Self)
        ensures
            r.spec_id() == id,
            r.spec_correlation_id() == correlation_id,
            r.spec_causation_id() == causation_id,
            r.spec_is_event() == is_event,
    {
        Self { id, correlation_id, causation_id, is_event }
    }

    pub fn id(&self) -> (r: Option<u128>)
        ensures
            r == self.spec_id(),
    {
        self.id
    }

    /// Replaces the assigned identity; every other attribute is kept.
    pub fn set_id(&mut self, id: Option<u128>)
        ensures
            final(self).spec_id() == id,
            final(self).spec_correlation_id() == old(self).spec_correlation_id(),
            final(self).spec_causation_id() == old(self).spec_causation_id(),
            final(self).spec_is_event() == old(self).spec_is_event(),
    {
        self.id = id;
    }

    pub fn correlation_id(&self) -> (r: u128)
        ensures
            r == self.spec_correlation_id(),
    {
        self.correlation_id
    }

    pub fn causation_id(&self) -> (r: u128)
        ensures
            r == self.spec_causation_id(),
    {
        self.causation_id
    }

    pub fn is_event(&self) -> (r: bool)
        ensures
            r == self.spec_is_event(),
    {
        self.is_event
    }

    /// The metadata owed to an item finalized under identity `id` whose
    /// predecessor is `previous`: the root of a fresh chain when there is
    /// none, else the continuation that keeps the predecessor's correlation
    /// and is caused by the predecessor's identity — or by itself, when the
    /// predecessor was never assigned one.
    pub open(crate) spec fn spec_chained(id: u128, previous: Option<Metadata>, is_event: bool) -> Metadata {
        match previous {
            None => Metadata { id: Some(id), correlation_id: id, causation_id: id, is_event },
            Some(p) => Metadata {
                id: Some(id),
                correlation_id: p.correlation_id,
                causation_id: match p.id {
                    Some(pid) => pid,
                    None => id,
                },
                is_event,
            },
        }
    }

    /// Computes the chained metadata for an item finalized under `id`.
    pub fn chained(id: u128, previous: Option<&Metadata>, is_event: bool) -> (r: Self)
        ensures
            r == Self::spec_chained(id, spec_previous(previous), is_event),
    {
        match previous {
            None => Self { id: Some(id), correlation_id: id, causation_id: id, is_event },
            Some(p) => Self {
                id: Some(id),
                correlation_id: p.correlation_id,
                causation_id: match p.id {
                    Some(pid) => pid,
                    None => id,
                },
                is_event,
            },
        }
    }

    /// Starts a fresh causal chain: allocates a new identity `X` and yields
    /// metadata with `id == correlation_id == causation_id == X`.
    pub fn start(is_event: bool) -> (r: Self)
        ensures
            r.spec_id() == Some(r.spec_correlation_id()),
            r.spec_causation_id() == r.spec_correlation_id(),
            r.spec_is_event() == is_event,
            r == Self::spec_chained(r.spec_correlation_id(), None, is_event),
    {
        let id = fresh_id();
        Self::chained(id, None, is_event)
    }

    /// Continues a chain: allocates a new identity, keeps the predecessor's
    /// correlation identifier, and records the predecessor's identity as the
    /// causation — falling back to the new identity itself when the
    /// predecessor was never assigned one.
    pub fn continue_chain(previous: &Metadata, is_event: bool) -> (r: Self)
        ensures
            r.spec_id() is Some,
            r.spec_correlation_id() == previous.spec_correlation_id(),
            r.spec_causation_id() == match previous.spec_id() {
                Some(pid) => pid,
                None => r.spec_id()->0,
            },
            r.spec_is_event() == is_event,
            r == Self::spec_chained(r.spec_id()->0, Some(*previous), is_event),
    {
        let id = fresh_id();
        Self::chained(id, Some(previous), is_event)
    }

    /// Serializes the metadata for transport: correlation and causation in
    /// canonical identifier text under the log's reserved keys and the
    /// command/event tag; the identity is omitted, since it travels on the
    /// envelope rather than in the body.
    pub fn to_json(&self) -> (r: String)
        ensures
            r@ == spec_metadata_json(*self),
    {
        let mut r = String::new();
        r.append("{\"$correlationId\":\"");
        let correlation = uuid_to_string(self.correlation_id);
        r.append(correlation.as_str());
        r.append("\",\"$causationId\":\"");
        let causation = uuid_to_string(self.causation_id);
        r.append(causation.as_str());
        r.append("\",\"is_event\":");
        if self.is_event {
            r.append("true");
        } else {
            r.append("false");
        }
        r.append("}");
        proof {
            assert(r@ =~= spec_metadata_json(*self));
        }
        r
    }
}

/// Relies on uuid's `Uuid::new_v4` for process-wide unique 128-bit
/// identities; nothing is assumed of the value drawn.
#[verifier::external_body]
pub(crate) fn fresh_id() -> u128 {
    uuid::Uuid::new_v4().as_u128()
}

/// The character of one hexadecimal digit, lowercase.
pub open spec fn hex_char(n: nat) -> char {
    if n == 0 {
        '0'
    } else if n == 1 {
        '1'
    } else if n == 2 {
        '2'
    } else if n == 3 {
        '3'
    } else if n == 4 {
        '4'
    } else if n == 5 {
        '5'
    } else if n == 6 {
        '6'
    } else if n == 7 {
        '7'
    } else if n == 8 {
        '8'
    } else if n == 9 {
        '9'
    } else if n == 10 {
        'a'
    } else if n == 11 {
        'b'
    } else if n == 12 {
        'c'
    } else if n == 13 {
        'd'
    } else if n == 14 {
        'e'
    } else {
        'f'
    }
}

/// Sixteen to the power `n`.
pub open spec fn pow16(n: nat) -> nat
    decreases n,
{
    if n == 0 {
        1
    } else {
        16 * pow16((n - 1) as nat)
    }
}

/// The value of 4-bit group `j` of `x`, counting groups from the least
/// significant.
pub open spec fn nibble(x: u128, j: nat) -> nat {
    ((x as nat) / pow16(j)) % 16
}

/// `len` hex digits of `x`, most significant first, beginning at 4-bit
/// group `top`.
pub open spec fn hex_group(x: u128, top: nat, len: nat) -> Seq<char> {
    Seq::new(len, |i: int| hex_char(nibble(x, (top - i) as nat)))
}

/// The canonical text of a 128-bit identifier: its 32 lowercase hex digits,
/// most significant first, in groups of 8, 4, 4, 4 and 12 separated by
/// hyphens.
pub open spec fn uuid_text(x: u128) -> Seq<char> {
    hex_group(x, 31, 8) + seq!['-'] + hex_group(x, 23, 4) + seq!['-'] + hex_group(x, 19, 4)
        + seq!['-'] + hex_group(x, 15, 4) + seq!['-'] + hex_group(x, 11, 12)
}

/// Relies on uuid's `Uuid::from_u128` (which takes the value big-endian) and
/// its hyphenated lowercase formatter for the canonical text of an
/// identifier.
#[verifier::external_body]
fn uuid_to_string(x: u128) -> (r: String)
    ensures
        r@ == uuid_text(x),
{
    uuid::Uuid::from_u128(x).hyphenated().to_string()
}

/// The serialized form of metadata: the correlation and causation
/// identifiers in canonical text under the log's reserved keys, then the
/// command/event tag, and no identity.
pub open spec fn spec_metadata_json(m: Metadata) -> Seq<char> {
    "{\"$correlationId\":\""@ + uuid_text(m.spec_correlation_id()) + "\",\"$causationId\":\""@
        + uuid_text(m.spec_causation_id()) + "\",\"is_event\":"@ + (if m.spec_is_event() {
        "true"@
    } else {
        "false"@
    }) + "}"@
}

} // verus!
