//! The timestamped text that one alert message adds to the log file.

use vstd::prelude::*;
use vstd::string::StrSliceExecFns;
use vstd::string::StringExecFns;

verus! {

/// The separator between the timestamp prefix and a line's content.
pub open spec fn log_sep() -> Seq<char> {
    " | "@
}

/// The message's characters with the prefix `ts + " | "` re-inserted
/// after every line break.
pub open spec fn continued_lines(ts: Seq<char>, msg: Seq<char>) -> Seq<char>
    decreases msg.len(),
{
    if msg.len() == 0 {
        Seq::empty()
    } else {
        continued_lines(ts, msg.drop_last()) + (if msg.last() == '\n' {
            "\n"@ + ts + log_sep()
        } else {
            seq![msg.last()]
        })
    }
}

/// The full text appended to the log for one message: every message
/// line prefixed with the timestamp and the separator, and a trailing
/// blank (but still timestamped) line for readability.
pub open spec fn log_entry_str(ts: Seq<char>, msg: Seq<char>) -> Seq<char> {
    ts + log_sep() + continued_lines(ts, msg) + "\n"@ + ts + log_sep() + "\n"@
}

/// Renders the text that one message appends to the log file, each
/// line prefixed with the given timestamp.
pub fn render_log_entry(timestamp: &str, message: &str) -> (r: String)
    ensures
        r@ == log_entry_str(timestamp@, message@),
{
    let mut out = timestamp.to_owned();
    out.append(" | ");
    let len = message.unicode_len();
    proof {
        assert(out@ =~= timestamp@ + log_sep() + continued_lines(timestamp@, message@.take(0)));
    }
    let mut i: usize = 0;
    while i < len
        invariant
            i <= len == message@.len(),
            out@ == timestamp@ + log_sep() + continued_lines(timestamp@, message@.take(i as int)),
        decreases len - i,
    {
        let c = message.get_char(i);
        if c == '\n' {
            out.append("\n");
            out.append(timestamp);
            out.append(" | ");
        } else {
            let piece = message.substring_char(i, i + 1);
            out.append(piece);
            proof {
                assert(piece@ =~= seq![message@[i as int]]);
            }
        }
        proof {
            assert(message@.take(i + 1).drop_last() =~= message@.take(i as int));
            assert(message@.take(i + 1).last() == message@[i as int]);
            assert(out@ =~= timestamp@ + log_sep() + continued_lines(
                timestamp@,
                message@.take(i + 1),
            ));
        }
        i = i + 1;
    }
    out.append("\n");
    out.append(timestamp);
    out.append(" | ");
    out.append("\n");
    proof {
        assert(message@.take(len as int) =~= message@);
        assert(out@ =~= log_entry_str(timestamp@, message@));
    }
    out
}

} // verus!
