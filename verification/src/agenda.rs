//! The meeting agendas that the server generates on request.

use crate::text::same_text;
use vstd::prelude::*;

verus! {

/// A meeting agenda.
#[derive(Clone, Copy, Debug, PartialEq, Eq, Structural)]
pub enum Agenda {
    /// The triage meeting of the language team.
    LangTriage,
    /// The planning meeting of the language team.
    LangPlanning,
    /// The planning meeting of the types team.
    TypesPlanning,
}

/// How many agenda requests may wait for their turn.
pub const AGENDA_BUFFER: usize = 10;

/// How many agenda requests are served in one period.
pub const AGENDA_RATE: u64 = 2;

/// The length of a period, in seconds.
pub const AGENDA_PERIOD_SECS: u64 = 60;

/// The agenda that stands under `path`.
pub open spec fn agenda_at(path: Seq<char>) -> Option<Agenda> {
    if path == "/agenda/lang/triage"@ {
        Some(Agenda::LangTriage)
    } else if path == "/agenda/lang/planning"@ {
        Some(Agenda::LangPlanning)
    } else if path == "/agenda/types/planning"@ {
        Some(Agenda::TypesPlanning)
    } else {
        None
    }
}

/// Decides which agenda to generate for a request path; the error is the text to report.
pub fn handle_agenda_request(req: &str) -> (agenda: Result<Agenda, String>)
    ensures
        agenda matches Ok(a) ==> agenda_at(req@) == Some(a),
        agenda is Err <==> agenda_at(req@) is None,
        agenda == Ok::<Agenda, String>(Agenda::LangTriage) <==> req@ == "/agenda/lang/triage"@,
        agenda == Ok::<Agenda, String>(Agenda::LangPlanning) <==> req@ == "/agenda/lang/planning"@,
        agenda == Ok::<Agenda, String>(Agenda::TypesPlanning) <==> req@
            == "/agenda/types/planning"@,
        agenda matches Err(text) ==> text@ == "Unknown agenda; see /agenda for index."@,
{
    proof {
        reveal_strlit("/agenda/lang/triage");
        reveal_strlit("/agenda/lang/planning");
        reveal_strlit("/agenda/types/planning");
        assert("/agenda/lang/triage"@.len() < "/agenda/lang/planning"@.len());
        assert("/agenda/lang/planning"@.len() < "/agenda/types/planning"@.len());
    }
    if same_text(req, "/agenda/lang/triage") {
        return Ok(Agenda::LangTriage);
    }
    if same_text(req, "/agenda/lang/planning") {
        return Ok(Agenda::LangPlanning);
    }
    if same_text(req, "/agenda/types/planning") {
        return Ok(Agenda::TypesPlanning);
    }
    Err("Unknown agenda; see /agenda for index.".to_owned())
}

/// The text that any failure of an agenda request is reported with.
pub fn agenda_failure() -> (text: String)
    ensures
        text@ == "Rate limit of 2 request / 60 seconds exceeded"@,
{
    "Rate limit of 2 request / 60 seconds exceeded".to_owned()
}

} // verus!
