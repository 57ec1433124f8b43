//! Laws of the commands, stated in terms of their arguments, the requests
//! they make and what they report.

use vstd::prelude::*;

use crate::commands::{
    planned_calls, precheck, spec_command_meta, verify_result, ActCommands, Commands,
    ObserveCommands, RecoverCommands, VerifyCommands,
};
use crate::errors::ErrorCode;
use crate::http::HttpMethod;
use crate::record::{RecordView, ScalarView};
use crate::text::lowercase;

verus! {

/// `verify top-activity --mode contains` succeeds exactly when the expected
/// text occurs somewhere in the top activity as a contiguous run of
/// characters, wherever it starts; otherwise it fails with
/// `ASSERTION_FAILED`.
pub proof fn lemma_top_activity_contains_anywhere(expected: String, mode: String, top: Seq<char>)
    requires
        mode@ == "contains"@,
    ensures
        verify_result(&VerifyCommands::TopActivity { expected, mode }, top) is Ok <==> exists|
            i: int,
        |
            0 <= i && i + expected@.len() <= top.len() && #[trigger] top.subrange(
                i,
                i + expected@.len(),
            ) == expected@,
        verify_result(&VerifyCommands::TopActivity { expected, mode }, top) matches Err(e)
            ==> e.code == ErrorCode::AssertionFailed,
{
    reveal_strlit("contains");
    reveal_strlit("equals");
    assert(mode@ != "equals"@) by {
        assert(mode@[0] != "equals"@[0]);
    }
}

/// `verify top-activity --mode equals` succeeds exactly when the top
/// activity is the expected text.
pub proof fn lemma_top_activity_equals_exactly(expected: String, mode: String, top: Seq<char>)
    requires
        mode@ == "equals"@,
    ensures
        verify_result(&VerifyCommands::TopActivity { expected, mode }, top) is Ok <==> top
            == expected@,
{
}

/// `verify node-exists` accepts each of the fields `id`, `text`, `desc`,
/// `class` and `resource_id` (after lower-casing) and sends nothing for any
/// other field: it is refused with `INVALID_PARAMS`.
pub proof fn lemma_node_exists_fields(by: String, value: String, exact_match: bool)
    ensures
        (lowercase(by@) == "id"@ || lowercase(by@) == "text"@ || lowercase(by@) == "desc"@
            || lowercase(by@) == "class"@ || lowercase(by@) == "resource_id"@) <==> precheck(
            &Commands::Verify { command: VerifyCommands::NodeExists { by, value, exact_match } },
        ) is None,
        precheck(
            &Commands::Verify { command: VerifyCommands::NodeExists { by, value, exact_match } },
        ) matches Some(e) ==> e.code == ErrorCode::InvalidParams,
{
}

/// The value of the first member of `r` named `key`, if any.
pub open spec fn member(r: RecordView, key: Seq<char>) -> Option<ScalarView>
    decreases r.len(),
{
    if r.len() == 0 {
        None
    } else if r[0].0 == key {
        Some(r[0].1)
    } else {
        member(r.drop_first(), key)
    }
}

/// `act swipe` makes one POST to `/api/swipe` whose body carries each
/// argument under its own name (start point `x1`,`y1`, end point `x2`,`y2`,
/// `duration`), the same members as the session log records for it.
pub proof fn lemma_swipe_body(x1: u64, y1: u64, x2: u64, y2: u64, duration: i64, token: bool)
    ensures
        ({
            let cmd = Commands::Act { command: ActCommands::Swipe { x1, y1, x2, y2, duration } };
            let calls = planned_calls(&cmd, token);
            &&& calls.len() == 1
            &&& calls[0].method == HttpMethod::Post
            &&& calls[0].path == "/api/swipe"@
            &&& calls[0].api
            &&& calls[0].body matches Some(b) && {
                &&& b.len() == 5
                &&& member(b, "x1"@) == Some(ScalarView::Float(x1))
                &&& member(b, "y1"@) == Some(ScalarView::Float(y1))
                &&& member(b, "x2"@) == Some(ScalarView::Float(x2))
                &&& member(b, "y2"@) == Some(ScalarView::Float(y2))
                &&& member(b, "duration"@) == Some(ScalarView::Int(duration))
                &&& b == spec_command_meta(&cmd).1
            }
        }),
{
    reveal_strlit("x1");
    reveal_strlit("y1");
    reveal_strlit("x2");
    reveal_strlit("y2");
    reveal_strlit("duration");
    let cmd = Commands::Act { command: ActCommands::Swipe { x1, y1, x2, y2, duration } };
    let b = planned_calls(&cmd, token)[0].body->0;
    assert("x1"@ != "y1"@ && "x1"@ != "x2"@ && "x1"@ != "y2"@ && "x1"@ != "duration"@) by {
        assert("x1"@[0] != "y1"@[0]);
        assert("x1"@[1] != "x2"@[1]);
        assert("x1"@[0] != "y2"@[0]);
        assert("x1"@.len() != "duration"@.len());
    }
    assert("y1"@ != "x2"@ && "y1"@ != "y2"@ && "y1"@ != "duration"@) by {
        assert("y1"@[0] != "x2"@[0]);
        assert("y1"@[1] != "y2"@[1]);
        assert("y1"@.len() != "duration"@.len());
    }
    assert("x2"@ != "y2"@ && "x2"@ != "duration"@) by {
        assert("x2"@[0] != "y2"@[0]);
        assert("x2"@.len() != "duration"@.len());
    }
    assert("y2"@ != "duration"@) by {
        assert("y2"@.len() != "duration"@.len());
    }
    reveal_with_fuel(member, 6);
    assert(b.drop_first().drop_first().drop_first().drop_first().drop_first().len() == 0);
    assert(b.drop_first()[0] == b[1]);
    assert(b.drop_first().drop_first()[0] == b[2]);
    assert(b.drop_first().drop_first().drop_first()[0] == b[3]);
    assert(b.drop_first().drop_first().drop_first().drop_first()[0] == b[4]);
}

/// `recover home` makes one request, the same as `act home`: a POST to
/// `/api/press/home` with an empty object as body.
pub proof fn lemma_recover_home_presses_home(token: bool)
    ensures
        planned_calls(&Commands::Recover { command: RecoverCommands::Home }, token)
            == planned_calls(&Commands::Act { command: ActCommands::Home }, token),
        planned_calls(&Commands::Recover { command: RecoverCommands::Home }, token).len() == 1,
        planned_calls(&Commands::Recover { command: RecoverCommands::Home }, token)[0].method
            == HttpMethod::Post,
        planned_calls(&Commands::Recover { command: RecoverCommands::Home }, token)[0].path
            == "/api/press/home"@,
        planned_calls(&Commands::Recover { command: RecoverCommands::Home }, token)[0].body
            == Some(Seq::<(Seq<char>, ScalarView)>::empty()),
        planned_calls(&Commands::Recover { command: RecoverCommands::Home }, token)[0].api,
{
}

/// `observe screen` reads the screen: one GET of `/api/screen` without a
/// body, the same request that `verify text-contains` makes.
pub proof fn lemma_observe_screen_reads_screen(token: bool, text: String, ignore_case: bool)
    ensures
        planned_calls(&Commands::Observe { command: ObserveCommands::Screen }, token)
            == planned_calls(
            &Commands::Verify { command: VerifyCommands::TextContains { text, ignore_case } },
            token,
        ),
        planned_calls(&Commands::Observe { command: ObserveCommands::Screen }, token).len() == 1,
        planned_calls(&Commands::Observe { command: ObserveCommands::Screen }, token)[0].method
            == HttpMethod::Get,
        planned_calls(&Commands::Observe { command: ObserveCommands::Screen }, token)[0].path
            == "/api/screen"@,
        planned_calls(&Commands::Observe { command: ObserveCommands::Screen }, token)[0].body
            is None,
        planned_calls(&Commands::Observe { command: ObserveCommands::Screen }, token)[0].api,
{
}

} // verus!
