//! A small slot-booking domain that exercises the whole kernel: a command
//! that takes a time slot under a caller's name, the event recording that a
//! slot was taken, and the state folding those events.

use crate::metadata::hex_char;
use crate::naming::{
    command_wire_name, event_wire_name, spec_command_name, spec_event_name, CommandName, EventName,
    StateName,
};
use crate::protocol::{views_of, Command, Dto, Event, State, StateNamed};
use vstd::prelude::*;
use vstd::string::StringExecFns;

verus! {

/// Request to take a time slot: a requested duration and the caller's name.
#[derive(Clone, Debug, PartialEq, Eq)]
pub enum ConcurrentCommand {
    TakeTime(u8, String),
}

/// Fact that a slot was taken under a caller's name.
#[derive(Clone, Debug, PartialEq, Eq)]
pub enum ConcurrentEvent {
    TimeTaken(String),
}

/// Domain error of the slot-booking state. The state rejects no command, so
/// no value of this type is ever produced.
#[derive(Debug, PartialEq, Eq, Structural)]
pub enum ConcurrentError {
    /// A slot could not be taken.
    SlotRefused,
}

/// The names that have taken a slot, in the order their events were folded.
#[derive(Clone, Debug, PartialEq)]
pub struct ConcurrentState {
    pub names: Vec<String>,
}

impl View for ConcurrentCommand {
    type V = (u8, Seq<char>);

    open spec fn view(&self) -> (u8, Seq<char>) {
        match self {
            ConcurrentCommand::TakeTime(time, name) => (*time, name@),
        }
    }
}

impl View for ConcurrentEvent {
    type V = Seq<char>;

    open spec fn view(&self) -> Seq<char> {
        match self {
            ConcurrentEvent::TimeTaken(name) => name@,
        }
    }
}

impl View for ConcurrentState {
    type V = Seq<Seq<char>>;

    open spec fn view(&self) -> Seq<Seq<char>> {
        self.names.deep_view()
    }
}

impl Default for ConcurrentState {
    /// The empty state: no slot taken yet.
    fn default() -> (r: Self)
        ensures
            r@ == Seq::<Seq<char>>::empty(),
    {
        let r = ConcurrentState { names: Vec::new() };
        proof {
            assert(r@ =~= Seq::<Seq<char>>::empty());
        }
        r
    }
}

impl StateNamed for ConcurrentState {
    open spec fn spec_state_name() -> Seq<char> {
        "ConcurrentState"@
    }

    fn state_name() -> (r: StateName) {
        "ConcurrentState".to_owned()
    }
}

/// The decimal text of a byte value, without leading zeroes.
pub open spec fn dec_u8(n: u8) -> Seq<char> {
    if n < 10 {
        seq![hex_char(n as nat)]
    } else if n < 100 {
        seq![hex_char((n / 10) as nat), hex_char((n % 10) as nat)]
    } else {
        seq![
            hex_char((n / 100) as nat),
            hex_char(((n / 10) % 10) as nat),
            hex_char((n % 10) as nat),
        ]
    }
}

/// The text of one decimal digit.
fn digit_str(d: u8) -> (r: &'static str)
    requires
        d < 10,
    ensures
        r@ == seq![hex_char(d as nat)],
{
    proof {
        reveal_strlit("0");
        reveal_strlit("1");
        reveal_strlit("2");
        reveal_strlit("3");
        reveal_strlit("4");
        reveal_strlit("5");
        reveal_strlit("6");
        reveal_strlit("7");
        reveal_strlit("8");
        reveal_strlit("9");
    }
    if d == 0 {
        "0"
    } else if d == 1 {
        "1"
    } else if d == 2 {
        "2"
    } else if d == 3 {
        "3"
    } else if d == 4 {
        "4"
    } else if d == 5 {
        "5"
    } else if d == 6 {
        "6"
    } else if d == 7 {
        "7"
    } else if d == 8 {
        "8"
    } else {
        "9"
    }
}

/// Appends the decimal text of `n`.
fn push_dec_u8(s: &mut String, n: u8)
    ensures
        final(s)@ == old(s)@ + dec_u8(n),
{
    if n >= 100 {
        s.append(digit_str(n / 100));
        s.append(digit_str((n / 10) % 10));
        s.append(digit_str(n % 10));
        proof {
            assert(s@ =~= old(s)@ + dec_u8(n));
        }
    } else if n >= 10 {
        s.append(digit_str(n / 10));
        s.append(digit_str(n % 10));
        proof {
            assert(s@ =~= old(s)@ + dec_u8(n));
        }
    } else {
        s.append(digit_str(n));
        proof {
            assert(s@ =~= old(s)@ + dec_u8(n));
        }
    }
}

impl Command for ConcurrentCommand {
    type Owner = ConcurrentState;

    open spec fn spec_variant(&self) -> Seq<char> {
        "TakeTime"@
    }

    proof fn lemma_name_format(&self) {
    }

    open spec fn spec_name(&self) -> Seq<char> {
        spec_command_name("ConcurrentState"@, "TakeTime"@)
    }

    /// The payload embeds the caller's name verbatim: a name holding a quote
    /// or a backslash yields a payload the assembler rejects.
    open spec fn spec_payload(&self) -> Seq<char> {
        match self {
            ConcurrentCommand::TakeTime(time, name) => "{\"TakeTime\":["@ + dec_u8(*time) + ",\""@
                + name@ + "\"]}"@,
        }
    }

    fn command_name(&self) -> (r: CommandName) {
        let state = ConcurrentState::state_name();
        match self {
            ConcurrentCommand::TakeTime(_, _) => command_wire_name(state.as_str(), "TakeTime"),
        }
    }

    fn payload(&self) -> (r: String) {
        match self {
            ConcurrentCommand::TakeTime(time, name) => {
                let mut r = String::new();
                r.append("{\"TakeTime\":[");
                push_dec_u8(&mut r, *time);
                r.append(",\"");
                r.append(name.as_str());
                r.append("\"]}");
                proof {
                    assert(r@ =~= self.spec_payload());
                }
                r
            },
        }
    }
}

impl Event for ConcurrentEvent {
    open spec fn spec_variant(&self) -> Seq<char> {
        "TimeTaken"@
    }

    proof fn lemma_name_format(&self) {
    }

    open spec fn spec_name(&self) -> Seq<char> {
        spec_event_name("TimeTaken"@)
    }

    /// The payload embeds the caller's name verbatim: a name holding a quote
    /// or a backslash yields a payload the assembler rejects.
    open spec fn spec_payload(&self) -> Seq<char> {
        match self {
            ConcurrentEvent::TimeTaken(name) => "{\"TimeTaken\":\""@ + name@ + "\"}"@,
        }
    }

    fn event_name(&self) -> (r: EventName) {
        match self {
            ConcurrentEvent::TimeTaken(_) => event_wire_name("TimeTaken"),
        }
    }

    fn payload(&self) -> (r: String) {
        match self {
            ConcurrentEvent::TimeTaken(name) => {
                let mut r = String::new();
                r.append("{\"TimeTaken\":\"");
                r.append(name.as_str());
                r.append("\"}");
                proof {
                    assert(r@ =~= self.spec_payload());
                }
                r
            },
        }
    }
}

impl Dto for ConcurrentState {
    type Event = ConcurrentEvent;

    type Error = ConcurrentError;

    open spec fn spec_play(pre: Seq<Seq<char>>, event: Seq<char>) -> Seq<Seq<char>> {
        pre.push(event)
    }

    fn play_event(&mut self, event: &ConcurrentEvent) {
        match event {
            ConcurrentEvent::TimeTaken(name) => {
                self.names.push(name.clone());
                proof {
                    assert(self@ =~= Self::spec_play(old(self)@, event@));
                }
            },
        }
    }
}

impl State for ConcurrentState {
    type Command = ConcurrentCommand;

    open spec fn spec_try(pre: Seq<Seq<char>>, command: (u8, Seq<char>)) -> Result<
        Seq<Seq<char>>,
        ConcurrentError,
    > {
        Ok(seq![command.1])
    }

    fn try_command(&self, command: ConcurrentCommand) -> (r: Result<
        Vec<ConcurrentEvent>,
        ConcurrentError,
    >) {
        match command {
            ConcurrentCommand::TakeTime(_time, name) => {
                let events = vec![ConcurrentEvent::TimeTaken(name)];
                proof {
                    assert(views_of(events@) =~= seq![events@[0]@]);
                }
                Ok(events)
            },
        }
    }
}

} // verus!
