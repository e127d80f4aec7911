//! What is put to the language service, and when it is asked at all.

use vstd::prelude::*;
use vstd::string::*;

verus! {

/// The model that is asked.
pub const MODEL: &'static str = "gpt-3.5-turbo";

/// Who speaks in a turn of a conversation.
#[derive(Debug, Clone, Copy, PartialEq, Eq, Structural)]
pub enum Role {
    System,
    User,
    Assistant,
}

/// One turn of a conversation.
#[derive(Debug)]
pub struct Turn {
    pub role: Role,
    pub content: String,
}

impl Role {
    /// The name of the role.
    pub open spec fn label(self) -> Seq<char> {
        match self {
            Role::System => "system"@,
            Role::User => "user"@,
            Role::Assistant => "assistant"@,
        }
    }

    /// The name of the role, as the service knows it.
    pub fn name(&self) -> (r: &'static str)
        ensures
            r@ == self.label(),
    {
        match self {
            Role::System => "system",
            Role::User => "user",
            Role::Assistant => "assistant",
        }
    }
}

/// Whether a text is worth a request to the language service: one of three
/// characters or fewer is not, and gets no result without being sent.
pub fn worth_asking(msg: &str) -> (r: bool)
    ensures
        r == (msg@.len() > 3),
{
    msg.unicode_len() > 3
}

/// The instruction that opens a request for a rewording: to give the
/// sentence back in the negative.
pub open spec fn rewording_instruction() -> Seq<char> {
    "Olet botti joka palauttaa virkkeen kielteisellä merkityksellä. Voit muuttaa sanamuotoja tarpeen mukaan. Saat luvan lisätä vastaukseen nimen vain jos se esiintyy myös käyttäjän viimeisessä viestissä. Nimet ovat todennäköisesti suomalaisia etunimiä. Jos virkkeessä on useampi lause, palauta kielteinen muoto kaikista niistä."@
}

/// The worked examples that follow the instruction, each a sentence and its
/// negative.
pub open spec fn rewording_examples() -> Seq<(Seq<char>, Seq<char>)> {
    seq![
        ("mikko menee töihin"@, "mikko ei mene töihin"@),
        ("auto ostoon"@, "ei laiteta autoa ostoon"@),
        ("takaisin töihin"@, "ei mennä takaisin töihin"@),
        (
            "esitän puhelimessa mikko mallikasta ja jätän 200$ tarjouksen"@,
            "en esitä puhelimessa mikko mallikasta enkä jätä 200$ tarjousta"@,
        ),
    ]
}

/// The turns of `examples`, a user's and an assistant's for each.
pub open spec fn example_turns(examples: Seq<(Seq<char>, Seq<char>)>) -> Seq<(Role, Seq<char>)>
    decreases examples.len(),
{
    if examples.len() == 0 {
        Seq::empty()
    } else {
        example_turns(examples.drop_last()).push((Role::User, examples.last().0)).push(
            (Role::Assistant, examples.last().1),
        )
    }
}

/// The conversation that asks for the rewording of `msg`: the instruction,
/// the worked examples, then `msg` as the user's last word.
pub open spec fn rewording_request(msg: Seq<char>) -> Seq<(Role, Seq<char>)> {
    (seq![(Role::System, rewording_instruction())] + example_turns(rewording_examples())).push(
        (Role::User, msg),
    )
}

/// The conversation that `turns` holds.
pub open spec fn spoken(turns: Seq<Turn>) -> Seq<(Role, Seq<char>)> {
    Seq::new(turns.len(), |i: int| (turns[i].role, turns[i].content@))
}

/// Adds a turn to a conversation.
fn say(turns: &mut Vec<Turn>, role: Role, content: &str)
    ensures
        spoken(final(turns)@) == spoken(old(turns)@).push((role, content@)),
{
    turns.push(Turn { role, content: content.to_owned() });
}

/// The conversation that asks for the rewording of `msg`.
pub fn rewording_conversation(msg: &str) -> (r: Vec<Turn>)
    ensures
        spoken(r@) == rewording_request(msg@),
{
    let mut r: Vec<Turn> = Vec::new();
    say(
        &mut r,
        Role::System,
        "Olet botti joka palauttaa virkkeen kielteisellä merkityksellä. Voit muuttaa sanamuotoja tarpeen mukaan. Saat luvan lisätä vastaukseen nimen vain jos se esiintyy myös käyttäjän viimeisessä viestissä. Nimet ovat todennäköisesti suomalaisia etunimiä. Jos virkkeessä on useampi lause, palauta kielteinen muoto kaikista niistä.",
    );
    say(&mut r, Role::User, "mikko menee töihin");
    say(&mut r, Role::Assistant, "mikko ei mene töihin");
    say(&mut r, Role::User, "auto ostoon");
    say(&mut r, Role::Assistant, "ei laiteta autoa ostoon");
    say(&mut r, Role::User, "takaisin töihin");
    say(&mut r, Role::Assistant, "ei mennä takaisin töihin");
    say(&mut r, Role::User, "esitän puhelimessa mikko mallikasta ja jätän 200$ tarjouksen");
    say(&mut r, Role::Assistant, "en esitä puhelimessa mikko mallikasta enkä jätä 200$ tarjousta");
    say(&mut r, Role::User, msg);
    proof {
        reveal_with_fuel(example_turns, 5);
    }
    r
}

/// The conversation that asks for the cut that `msg` describes: `msg` alone.
pub fn cut_conversation(msg: &str) -> (r: Vec<Turn>)
    ensures
        spoken(r@) == seq![(Role::User, msg@)],
{
    let mut r: Vec<Turn> = Vec::new();
    say(&mut r, Role::User, msg);
    r
}

/// Where the length of a cut comes from.
#[derive(Debug, Clone, Copy, PartialEq, Eq, Structural)]
pub enum CutLength {
    /// A length was asked for.
    Given,
    /// An end was asked for: the length is the end less the start.
    UntilEnd,
    /// Neither: the cut runs to the end of the video.
    Open,
}

/// Where the length of a cut comes from: a length that was asked for goes
/// before an end that was asked for.
pub fn cut_length(length_given: bool, end_given: bool) -> (r: CutLength)
    ensures
        r == if length_given {
            CutLength::Given
        } else if end_given {
            CutLength::UntilEnd
        } else {
            CutLength::Open
        },
{
    if length_given {
        CutLength::Given
    } else if end_given {
        CutLength::UntilEnd
    } else {
        CutLength::Open
    }
}

} // verus!
