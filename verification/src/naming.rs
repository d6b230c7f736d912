//! Derivation of the stable wire identifier of each command and event
//! variant: `CMD.<StateName>.<VariantName>` for commands, with both parts
//! taken verbatim, and `evt.<variant_in_snake_case>` for events.

use convert_case::Casing;
use vstd::prelude::*;
use vstd::string::StringExecFns;

verus! {

/// Wire identifier of a command variant.
pub type CommandName = String;

/// Wire identifier of an event variant.
pub type EventName = String;

/// Declared name of the state that owns a family of commands.
pub type StateName = String;

/// Snake-case form that the case converter gives to an identifier; the
/// result depends on the characters of the input alone.
pub uninterp spec fn snake_of(s: Seq<char>) -> Seq<char>;

/// Relies on convert_case's `Casing::to_case` with `Case::Snake`: a pure
/// conversion of an identifier to lowercase words separated by underscores.
#[verifier::external_body]
fn to_snake(s: &str) -> (r: String)
    ensures
        r@ == snake_of(s@),
{
    s.to_case(convert_case::Case::Snake)
}

/// The wire name owed to a command variant: `CMD.`, the owning state's
/// declared name, a dot, and the variant's name, all verbatim.
pub open spec fn spec_command_name(state: Seq<char>, variant: Seq<char>) -> Seq<char> {
    "CMD."@ + state + "."@ + variant
}

/// The wire name owed to an event variant: `evt.` followed by the variant's
/// name in snake case.
pub open spec fn spec_event_name(variant: Seq<char>) -> Seq<char> {
    "evt."@ + snake_of(variant)
}

/// Derives the wire name of a command variant from its owning state's
/// declared name and the variant's own name.
pub fn command_wire_name(state_name: &str, variant: &str) -> (r: CommandName)
    ensures
        r@ == spec_command_name(state_name@, variant@),
{
    let mut r = String::new();
    r.append("CMD.");
    r.append(state_name);
    r.append(".");
    r.append(variant);
    proof {
        assert(r@ =~= spec_command_name(state_name@, variant@));
    }
    r
}

/// Derives the wire name of an event variant from the variant's own name.
pub fn event_wire_name(variant: &str) -> (r: EventName)
    ensures
        r@ == spec_event_name(variant@),
{
    let snake = to_snake(variant);
    let mut r = String::new();
    r.append("evt.");
    r.append(snake.as_str());
    proof {
        assert(r@ =~= spec_event_name(variant@));
    }
    r
}

/// Law: naming is deterministic. The wire name is a function of the owning
/// state's declared name and the variant's name alone, so deriving it twice
/// yields equal strings.
pub proof fn lemma_naming_deterministic(state: Seq<char>, variant: Seq<char>)
    ensures
        spec_command_name(state, variant) == spec_command_name(state, variant),
        spec_event_name(variant) == spec_event_name(variant),
{
}

/// Law: two distinct command variants under the same owning state never
/// share a wire name.
pub proof fn lemma_command_names_collision_free(state: Seq<char>, v1: Seq<char>, v2: Seq<char>)
    requires
        v1 != v2,
    ensures
        spec_command_name(state, v1) != spec_command_name(state, v2),
{
    let p = "CMD."@ + state + "."@;
    if spec_command_name(state, v1) == spec_command_name(state, v2) {
        assert((p + v1).len() == (p + v2).len());
        assert(v1.len() == v2.len());
        assert forall|i: int| 0 <= i < v1.len() implies v1[i] == v2[i] by {
            assert((p + v1)[p.len() + i] == v1[i]);
            assert((p + v2)[p.len() + i] == v2[i]);
        }
        assert(v1 =~= v2);
    }
}

/// Law: two event variants whose snake-case forms differ never share a wire
/// name. The case conversion itself can merge variants that differ only in
/// casing, so the law is stated over the converted forms.
pub proof fn lemma_event_names_collision_free(v1: Seq<char>, v2: Seq<char>)
    requires
        snake_of(v1) != snake_of(v2),
    ensures
        spec_event_name(v1) != spec_event_name(v2),
{
    let p = "evt."@;
    let s1 = snake_of(v1);
    let s2 = snake_of(v2);
    if spec_event_name(v1) == spec_event_name(v2) {
        assert((p + s1).len() == (p + s2).len());
        assert(s1.len() == s2.len());
        assert forall|i: int| 0 <= i < s1.len() implies s1[i] == s2[i] by {
            assert((p + s1)[p.len() + i] == s1[i]);
            assert((p + s2)[p.len() + i] == s2[i]);
        }
        assert(s1 =~= s2);
    }
}

} // verus!
