//! The text of the run log: a flat list of `"key": value,` entries between an
//! opening brace, which the caller writes, and a closing entry.
//!
//! The log is assembled in memory; storing it is left to the caller.

use vstd::prelude::*;
use vstd::string::*;

verus! {

/// A run log that is still open.
pub struct RunLog {
    text: String,
}

impl View for RunLog {
    type V = Seq<char>;

    closed spec fn view(&self) -> Seq<char> {
        self.text@
    }
}

/// The entry that records `value` under `key`: the key in double quotes, a
/// colon and a space, the value as it stands, and a comma.
pub open spec fn keyvalue_entry(key: Seq<char>, value: Seq<char>) -> Seq<char> {
    seq!['"'] + key + seq!['"', ':', ' '] + value + seq![',']
}

/// The entry that ends every log, with the closing brace.
pub open spec fn closing_entry() -> Seq<char> {
    seq!['"', 'l', 'a', 's', 't', '"', ':', '"', '"', '}']
}

/// Opens an empty log.
pub fn init() -> (log: RunLog)
    ensures
        log@ == Seq::<char>::empty(),
{
    RunLog { text: String::new() }
}

/// Appends `text` to the log as it stands.
pub fn write_log(log: &mut RunLog, text: &str)
    ensures
        final(log)@ == old(log)@ + text@,
{
    log.text.append(text);
}

/// Appends the entry for `key` and `value` to the log. The value is written
/// as given: the caller formats it.
pub fn write_keyvalue(log: &mut RunLog, key: &str, value: &str)
    ensures
        final(log)@ == old(log)@ + keyvalue_entry(key@, value@),
{
    proof {
        reveal_strlit("\"");
        reveal_strlit("\": ");
        reveal_strlit(",");
    }
    log.text.append("\"");
    log.text.append(key);
    log.text.append("\": ");
    log.text.append(value);
    log.text.append(",");
    assert(log.text@ =~= old(log)@ + keyvalue_entry(key@, value@));
}

/// Closes the log and hands out its whole text.
pub fn finish(log: RunLog) -> (text: String)
    ensures
        text@ == log@ + closing_entry(),
{
    proof {
        reveal_strlit("\"last\":\"\"}");
    }
    let mut text = log.text;
    text.append("\"last\":\"\"}");
    assert(text@ =~= log@ + closing_entry());
    text
}

} // verus!
