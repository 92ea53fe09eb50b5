//! The log of a render: what FFmpeg reported, and what the application added to it, as rich
//! text for display.

use vstd::prelude::*;
use vstd::string::*;

verus! {

/// FFmpeg's log levels: the lower the level, the graver the message.
pub const LEVEL_PANIC: i32 = 0;

pub const LEVEL_FATAL: i32 = 8;

pub const LEVEL_ERROR: i32 = 16;

pub const LEVEL_WARNING: i32 = 24;

/// The level up to which messages are logged.
pub const LEVEL_INFO: i32 = 32;

/// The size of the buffer that a message is formatted into, in bytes.
pub const LINE_CAPACITY: usize = 2048;

/// The log, and FFmpeg's note on whether the next message starts a line of its own.
#[derive(Debug)]
pub struct RenderLog {
    pub text: String,
    pub last_prefix: i32,
}

/// A log with its text as a sequence of characters.
pub struct LogView {
    pub text: Seq<char>,
    pub last_prefix: i32,
}

impl View for RenderLog {
    type V = LogView;

    open spec fn view(&self) -> LogView {
        LogView { text: self.text@, last_prefix: self.last_prefix }
    }
}

/// Whether messages of a level are logged when the log is set to `log_level`.
pub open spec fn is_logged_at(level: i32, log_level: i32) -> bool {
    level <= log_level
}

/// The bytes of a message that was formatted into the buffer `line`, when the formatter said
/// that the message takes `written` bytes.
///
/// A message that the buffer was too small for is filled up with zeros, and a formatter that
/// reports nothing written leaves the whole buffer.
pub open spec fn message_bytes(line: Seq<u8>, written: i32) -> Seq<u8> {
    if written > 0 {
        Seq::new(
            written as nat,
            |i: int|
                if i < line.len() {
                    line[i]
                } else {
                    0u8
                },
        )
    } else {
        line
    }
}

/// The tag that opens a message of a level: errors are red, warnings are orange, and other
/// messages have none.
pub open spec fn opening_tag(level: i32) -> Seq<char> {
    if level == LEVEL_PANIC || level == LEVEL_FATAL || level == LEVEL_ERROR {
        "<font color=\"#d82626\">"@
    } else if level == LEVEL_WARNING {
        "<font color=\"#f6a10c\">"@
    } else {
        Seq::empty()
    }
}

/// The tag that closes a message of a level.
pub open spec fn closing_tag(level: i32) -> Seq<char> {
    if level == LEVEL_PANIC || level == LEVEL_FATAL || level == LEVEL_ERROR || level
        == LEVEL_WARNING {
        "</font>"@
    } else {
        Seq::empty()
    }
}

/// A message as it is shown.
pub open spec fn shown(level: i32, message: Seq<char>) -> Seq<char> {
    opening_tag(level) + message + closing_tag(level)
}

/// The log after the application added a message.
pub open spec fn appended(log: LogView, msg: Seq<char>) -> LogView {
    LogView { text: log.text + msg, ..log }
}

/// The log after it was emptied.
pub open spec fn cleared(log: LogView) -> LogView {
    LogView { text: Seq::empty(), ..log }
}

/// The log after FFmpeg formatted a message: the message as it is shown is added, unless its
/// bytes are no text, and the note on line starts is taken over either way.
pub open spec fn recorded(
    log: LogView,
    level: i32,
    line: Seq<u8>,
    written: i32,
    prefix: i32,
) -> LogView {
    let bytes = message_bytes(line, written);
    LogView {
        text: if vstd::utf8::valid_utf8(bytes) {
            log.text + shown(level, vstd::utf8::decode_utf8(bytes))
        } else {
            log.text
        },
        last_prefix: prefix,
    }
}

/// `String::from_utf8`: turns bytes into the text that they encode in UTF-8, and fails exactly
/// when they are not valid UTF-8. What the error holds is dropped.
#[verifier::external_body]
fn string_from_utf8(bytes: Vec<u8>) -> (decoded: Option<String>)
    ensures
        decoded is Some <==> vstd::utf8::valid_utf8(bytes@),
        decoded matches Some(s) ==> s@ == vstd::utf8::decode_utf8(bytes@),
{
    String::from_utf8(bytes).ok()
}

impl RenderLog {
    /// An empty log, whose first message starts a line.
    pub fn new() -> (log: Self)
        ensures
            log@.text == Seq::<char>::empty(),
            log@.last_prefix == 1,
    {
        RenderLog { text: String::new(), last_prefix: 1 }
    }
}

impl Default for RenderLog {
    fn default() -> (log: Self)
        ensures
            log@.text == Seq::<char>::empty(),
            log@.last_prefix == 1,
    {
        RenderLog::new()
    }
}

/// Adds a message of the application to the log.
pub fn append_log(log: &mut RenderLog, msg: &str)
    ensures
        final(log)@ == appended(old(log)@, msg@),
{
    log.text.append(msg);
}

/// The text of the log.
pub fn get_log(log: &RenderLog) -> (text: String)
    ensures
        text@ == log@.text,
{
    log.text.clone()
}

/// Empties the log.
pub fn clear_log(log: &mut RenderLog)
    ensures
        final(log)@ == cleared(old(log)@),
{
    log.text = String::new();
}

/// Whether messages of a level are logged when the log is set to `log_level`.
pub fn is_logged(level: i32, log_level: i32) -> (logged: bool)
    ensures
        logged == is_logged_at(level, log_level),
{
    level <= log_level
}

/// A buffer to format a message into.
pub fn line_buffer() -> (line: Vec<u8>)
    ensures
        line@ == Seq::new(LINE_CAPACITY as nat, |i: int| 0u8),
{
    let line: Vec<u8> = vec![0u8; LINE_CAPACITY];
    assert(line@ =~= Seq::new(LINE_CAPACITY as nat, |i: int| 0u8));
    line
}

/// A message as it is shown.
fn show(level: i32, message: String) -> (line: String)
    ensures
        line@ == shown(level, message@),
{
    if level == LEVEL_PANIC || level == LEVEL_FATAL || level == LEVEL_ERROR {
        String::from_str("<font color=\"#d82626\">").concat(message.as_str()).concat("</font>")
    } else if level == LEVEL_WARNING {
        String::from_str("<font color=\"#f6a10c\">").concat(message.as_str()).concat("</font>")
    } else {
        assert(shown(level, message@) =~= message@);
        message
    }
}

/// Cuts the buffer that a message was formatted into down to the message.
fn fit_line(line: Vec<u8>, written: i32) -> (bytes: Vec<u8>)
    ensures
        bytes@ == message_bytes(line@, written),
{
    let mut bytes: Vec<u8> = line;
    if written > 0 {
        bytes.resize(written as usize, 0u8);
        assert(bytes@ =~= message_bytes(line@, written)) by {
            if written > line@.len() {
                assert forall|i: int| 0 <= i < line@.len() implies bytes@[i] == line@[i] by {
                    assert(bytes@.subrange(0, line@.len() as int)[i] == bytes@[i]);
                }
            }
        }
    }
    bytes
}

/// Takes a message that FFmpeg formatted into the buffer `line` into the log. The formatter
/// reported that the message takes `written` bytes, and left the note `prefix` on line starts.
pub fn record_line(log: &mut RenderLog, level: i32, line: Vec<u8>, written: i32, prefix: i32)
    ensures
        final(log)@ == recorded(old(log)@, level, line@, written, prefix),
{
    let bytes: Vec<u8> = fit_line(line, written);
    log.last_prefix = prefix;
    match string_from_utf8(bytes) {
        Some(message) => {
            let line: String = show(level, message);
            log.text.append(line.as_str());
        },
        None => {},
    }
}

/// Two messages added one after the other read as one.
pub proof fn lemma_appends_join(log: LogView, first: Seq<char>, second: Seq<char>)
    ensures
        appended(appended(log, first), second) == appended(log, first + second),
{
    assert((log.text + first) + second =~= log.text + (first + second));
}

/// After the log was emptied it reads as what was added since.
pub proof fn lemma_cleared_log_starts_over(log: LogView, msg: Seq<char>)
    ensures
        appended(cleared(log), msg).text == msg,
        cleared(appended(log, msg)) == cleared(log),
        cleared(log).last_prefix == log.last_prefix,
{
    assert(Seq::<char>::empty() + msg =~= msg);
}

/// Neither a message of the application nor one of FFmpeg takes away what the log holds.
pub proof fn lemma_log_only_grows(
    log: LogView,
    msg: Seq<char>,
    level: i32,
    line: Seq<u8>,
    written: i32,
    prefix: i32,
)
    ensures
        log.text.is_prefix_of(appended(log, msg).text),
        log.text.is_prefix_of(recorded(log, level, line, written, prefix).text),
{
    assert(log.text =~= appended(log, msg).text.subrange(0, log.text.len() as int));
    let after = recorded(log, level, line, written, prefix).text;
    assert(log.text =~= after.subrange(0, log.text.len() as int));
}

/// A message whose text fits the buffer is shown in full: the log ends with exactly that text
/// between the tags of its level, whatever the rest of the buffer holds.
pub proof fn lemma_fitting_message_is_shown(
    log: LogView,
    level: i32,
    message: Seq<char>,
    line: Seq<u8>,
    written: i32,
    prefix: i32,
)
    requires
        0 < written <= line.len(),
        line.take(written as int) == vstd::utf8::encode_utf8(message),
    ensures
        recorded(log, level, line, written, prefix).text == log.text + shown(level, message),
{
    broadcast use vstd::utf8::encode_utf8_valid_utf8, vstd::utf8::encode_utf8_decode_utf8;

    assert(message_bytes(line, written) =~= line.take(written as int));
}

/// A message whose bytes are no text leaves the text as it is.
pub proof fn lemma_broken_message_is_dropped(
    log: LogView,
    level: i32,
    line: Seq<u8>,
    written: i32,
    prefix: i32,
)
    requires
        !vstd::utf8::valid_utf8(message_bytes(line, written)),
    ensures
        recorded(log, level, line, written, prefix) == (LogView { last_prefix: prefix, ..log }),
{
}

/// Only errors and warnings carry tags.
pub proof fn lemma_plain_message_is_shown_as_is(level: i32, message: Seq<char>)
    requires
        level != LEVEL_PANIC,
        level != LEVEL_FATAL,
        level != LEVEL_ERROR,
        level != LEVEL_WARNING,
    ensures
        shown(level, message) == message,
{
    assert(shown(level, message) =~= message);
}

/// At the level that is set at start-up, every message that carries a tag is logged.
pub proof fn lemma_tagged_messages_are_logged(level: i32, message: Seq<char>)
    requires
        shown(level, message) != message,
    ensures
        is_logged_at(level, LEVEL_INFO),
{
    assert(opening_tag(level).len() == 0 && closing_tag(level).len() == 0 ==> shown(level, message)
        =~= message);
}

/// A message of the application stands behind what the log held, unchanged, and nothing else
/// changes.
pub proof fn lemma_appended_message_stands_at_the_end(
    before: RenderLog,
    after: RenderLog,
    msg: Seq<char>,
)
    requires
        after@ == appended(before@, msg),
    ensures
        after.text@ == before.text@ + msg,
        after.last_prefix == before.last_prefix,
{
}

/// An emptied log holds nothing, and keeps its note on line starts.
pub proof fn lemma_cleared_log_holds_nothing(before: RenderLog, after: RenderLog)
    requires
        after@ == cleared(before@),
    ensures
        after.text@.len() == 0,
        after.last_prefix == before.last_prefix,
{
}

/// The log reads as the text it holds.
pub proof fn lemma_log_reads_as_its_text(log: RenderLog, text: String)
    requires
        call_ensures(get_log, (&log,), text),
    ensures
        text@ == log.text@,
{
}

/// Reading a log after a message was added gives what reading it before gave, and the message.
pub proof fn lemma_message_is_read_back(
    before: RenderLog,
    after: RenderLog,
    msg: Seq<char>,
    text_before: String,
    text_after: String,
)
    requires
        after@ == appended(before@, msg),
        call_ensures(get_log, (&before,), text_before),
        call_ensures(get_log, (&after,), text_after),
    ensures
        text_after@ == text_before@ + msg,
{
}

/// A message is logged exactly if it is at least as grave as the log is set to.
pub proof fn lemma_graver_messages_are_logged(level: i32, log_level: i32, logged: bool)
    requires
        call_ensures(is_logged, (level, log_level), logged),
    ensures
        logged <==> log_level - level >= 0,
{
}

/// Whether these are the bytes of a message in a buffer: as many as were written, those beyond
/// the buffer zero; or the whole buffer if nothing was written.
pub open spec fn are_message_bytes(bytes: Seq<u8>, line: Seq<u8>, written: i32) -> bool {
    if written > 0 {
        &&& bytes.len() == written
        &&& forall|i: int| 0 <= i < written && i < line.len() ==> #[trigger] bytes[i] == line[i]
        &&& forall|i: int| line.len() <= i < written ==> #[trigger] bytes[i] == 0
    } else {
        bytes == line
    }
}

/// A message of FFmpeg that is text stands behind what the log held: in red for the levels 0, 8
/// and 16, in orange for the level 24, and bare for all others. One that is no text leaves the
/// text as it is. The note on line starts is the one handed in.
pub proof fn lemma_recorded_message_is_shown_by_its_level(
    before: RenderLog,
    after: RenderLog,
    level: i32,
    line: Seq<u8>,
    written: i32,
    prefix: i32,
    bytes: Seq<u8>,
)
    requires
        after@ == recorded(before@, level, line, written, prefix),
        are_message_bytes(bytes, line, written),
    ensures
        after.last_prefix == prefix,
        !vstd::utf8::valid_utf8(bytes) ==> after.text@ == before.text@,
        vstd::utf8::valid_utf8(bytes) ==> after.text@ == before.text@ + {
            let message = vstd::utf8::decode_utf8(bytes);
            if level == 0 || level == 8 || level == 16 {
                "<font color=\"#d82626\">"@ + message + "</font>"@
            } else if level == 24 {
                "<font color=\"#f6a10c\">"@ + message + "</font>"@
            } else {
                message
            }
        },
{
    assert(bytes =~= message_bytes(line, written));
    let message = vstd::utf8::decode_utf8(bytes);
    assert(Seq::<char>::empty() + message + Seq::<char>::empty() =~= message);
}

/// A new buffer has room for 2048 bytes, all zero.
pub proof fn lemma_new_buffer_is_zero(line: Vec<u8>)
    requires
        call_ensures(line_buffer, (), line),
    ensures
        line@.len() == 2048,
        forall|i: int| 0 <= i < 2048 ==> line@[i] == 0,
{
}

/// A new log is empty, and its first message starts a line.
pub proof fn lemma_new_log_is_empty(log: RenderLog)
    requires
        call_ensures(RenderLog::new, (), log),
    ensures
        log.text@.len() == 0,
        log.last_prefix == 1,
{
}

/// Messages are logged up to the level 32 from the start.
pub proof fn lemma_start_up_level_is_info(level: i32, logged: bool)
    requires
        call_ensures(is_logged, (level, LEVEL_INFO), logged),
    ensures
        logged <==> level <= 32,
{
}

} // verus!
