//! The domain model: size classes and descriptors from the header's event
//! type table, the errors a decode can end with, the validated stop-status
//! codes, and the typed scheduling events.

use vstd::prelude::*;

verus! {

/// A consumer-side failure: the record itself was framed correctly, but a
/// sink that requires full semantic understanding could not accept it.
#[derive(Debug, Clone, Copy, PartialEq, Eq, Structural)]
pub enum SinkError {
    /// A sink that demands total tag coverage met a tag it does not handle.
    UnhandledTag(u16),
    /// A thread-stop record carried a status code outside the valid range.
    BadStopStatus(u16),
    /// A text-bearing field did not hold valid UTF-8.
    BadUtf8,
}

/// A fatal decode failure.  The format has no recovery point, so any of
/// these aborts the whole pass.
#[derive(Debug, Clone, Copy, PartialEq, Eq, Structural)]
pub enum ParseError {
    /// The stream ended before a read could complete.
    Truncated,
    /// A framing marker did not match its expected byte sequence.
    BadMagic,
    /// An event type descriptor declared a negative size other than the
    /// variable-size marker.
    BadSizeField,
    /// The data section used a tag the header never declared.
    UnregisteredTag(u16),
    /// A declared payload was too short for the fields of its known tag.
    ShortPayload(u16),
    /// An event type description was not valid UTF-8.
    BadUtf8,
    /// A sink refused an event; decoding stopped at that record.
    Sink(SinkError),
}

/// The size class of an event kind: a fixed payload length known from the
/// header, or a per-record 16-bit length prefix.
#[derive(Debug, Clone, Copy, PartialEq, Eq, Structural)]
pub enum EventSize {
    Variable,
    Fixed(u16),
}

/// One entry of the header's event type table: the size class under which
/// records of this tag are framed, and the informational description string.
#[derive(Debug, Clone)]
pub struct EventType {
    pub size: EventSize,
    pub descr: String,
}

/// Why a thread stopped running.  Valid codes are 1 through 20; some are
/// reserved but still well-formed.
#[derive(Debug, Clone, Copy, PartialEq, Eq, Structural)]
pub enum StopStatus {
    HeapOverflow,
    StackOverflow,
    ThreadYielding,
    ThreadBlocked,
    ThreadFinished,
    ForeignCall,
    BlockedOnMVar,
    BlockedOnBlackHole,
    BlockedOnRead,
    BlockedOnWrite,
    BlockedOnDelay,
    BlockedOnSTM,
    BlockedOnDoProc,
    Reserved14,
    Reserved15,
    BlockedOnMsgThrowTo,
    Reserved17,
    Reserved18,
    Reserved19,
    BlockedOnMVarRead,
}

/// The numeric code a stop status is encoded as.
pub open spec fn stop_code(s: StopStatus) -> u16 {
    match s {
        StopStatus::HeapOverflow => 1,
        StopStatus::StackOverflow => 2,
        StopStatus::ThreadYielding => 3,
        StopStatus::ThreadBlocked => 4,
        StopStatus::ThreadFinished => 5,
        StopStatus::ForeignCall => 6,
        StopStatus::BlockedOnMVar => 7,
        StopStatus::BlockedOnBlackHole => 8,
        StopStatus::BlockedOnRead => 9,
        StopStatus::BlockedOnWrite => 10,
        StopStatus::BlockedOnDelay => 11,
        StopStatus::BlockedOnSTM => 12,
        StopStatus::BlockedOnDoProc => 13,
        StopStatus::Reserved14 => 14,
        StopStatus::Reserved15 => 15,
        StopStatus::BlockedOnMsgThrowTo => 16,
        StopStatus::Reserved17 => 17,
        StopStatus::Reserved18 => 18,
        StopStatus::Reserved19 => 19,
        StopStatus::BlockedOnMVarRead => 20,
    }
}

/// The stop status a valid code (1 through 20) decodes to.
pub open spec fn stop_decode(code: u16) -> StopStatus
    recommends
        1 <= code <= 20,
{
    match code {
        1u16 => StopStatus::HeapOverflow,
        2u16 => StopStatus::StackOverflow,
        3u16 => StopStatus::ThreadYielding,
        4u16 => StopStatus::ThreadBlocked,
        5u16 => StopStatus::ThreadFinished,
        6u16 => StopStatus::ForeignCall,
        7u16 => StopStatus::BlockedOnMVar,
        8u16 => StopStatus::BlockedOnBlackHole,
        9u16 => StopStatus::BlockedOnRead,
        10u16 => StopStatus::BlockedOnWrite,
        11u16 => StopStatus::BlockedOnDelay,
        12u16 => StopStatus::BlockedOnSTM,
        13u16 => StopStatus::BlockedOnDoProc,
        14u16 => StopStatus::Reserved14,
        15u16 => StopStatus::Reserved15,
        16u16 => StopStatus::BlockedOnMsgThrowTo,
        17u16 => StopStatus::Reserved17,
        18u16 => StopStatus::Reserved18,
        19u16 => StopStatus::Reserved19,
        _ => StopStatus::BlockedOnMVarRead,
    }
}

impl StopStatus {
    /// The total mapping from a raw status code to its enumeration value:
    /// exactly the codes 1 through 20 are accepted, anything else is a
    /// fatal error for the consumer that decodes the field.
    pub fn from(status: u16) -> (r: Result<StopStatus, SinkError>)
        ensures
            r is Ok <==> 1 <= status <= 20,
            r matches Ok(s) ==> stop_code(s) == status && s == stop_decode(status),
            r matches Err(e) ==> e == SinkError::BadStopStatus(status),
    {
        match status {
            1 => Ok(StopStatus::HeapOverflow),
            2 => Ok(StopStatus::StackOverflow),
            3 => Ok(StopStatus::ThreadYielding),
            4 => Ok(StopStatus::ThreadBlocked),
            5 => Ok(StopStatus::ThreadFinished),
            6 => Ok(StopStatus::ForeignCall),
            7 => Ok(StopStatus::BlockedOnMVar),
            8 => Ok(StopStatus::BlockedOnBlackHole),
            9 => Ok(StopStatus::BlockedOnRead),
            10 => Ok(StopStatus::BlockedOnWrite),
            11 => Ok(StopStatus::BlockedOnDelay),
            12 => Ok(StopStatus::BlockedOnSTM),
            13 => Ok(StopStatus::BlockedOnDoProc),
            14 => Ok(StopStatus::Reserved14),
            15 => Ok(StopStatus::Reserved15),
            16 => Ok(StopStatus::BlockedOnMsgThrowTo),
            17 => Ok(StopStatus::Reserved17),
            18 => Ok(StopStatus::Reserved18),
            19 => Ok(StopStatus::Reserved19),
            20 => Ok(StopStatus::BlockedOnMVarRead),
            _ => Err(SinkError::BadStopStatus(status)),
        }
    }
}

/// A typed scheduling event, one variant per tag the time-ordered consumer
/// understands, carrying only the fields relevant to scheduler analysis.
#[derive(Debug, Clone)]
pub enum Ev {
    CapCreate { capno: u16 },
    CapDelete { capno: u16 },
    CapDisable { capno: u16 },
    TaskCreate { taskid: u64, capno: u16, kernel_tid: u64 },
    TaskMigrate { taskid: u64, from: u16, to: u16 },
    TaskDelete { taskid: u64 },
    ThreadCreate { id: u32 },
    ThreadLabel { id: u32, label: String },
    ThreadRun { id: u32 },
    ThreadStop { id: u32, status: StopStatus, block_on: u32 },
    ThreadRunnable { id: u32 },
    ThreadMigrate { id: u32, capno: u16 },
    ThreadWakeup { id: u32, capno: u16 },
}

/// What a byte string holds when read as UTF-8: the characters it encodes,
/// or nothing if it is not valid UTF-8.
pub uninterp spec fn utf8_decode(bytes: Seq<u8>) -> Option<Seq<char>>;

/// Relies on String::from_utf8: whether the bytes decode, and to which
/// characters, depends on the byte values alone.
#[verifier::external_body]
pub(crate) fn utf8_to_string(bytes: Vec<u8>) -> (r: Result<String, SinkError>)
    ensures
        r is Ok <==> utf8_decode(bytes@) is Some,
        r matches Ok(s) ==> utf8_decode(bytes@) == Some(s@),
        r matches Err(e) ==> e == SinkError::BadUtf8,
{
    match String::from_utf8(bytes) {
        Ok(s) => Ok(s),
        Err(_) => Err(SinkError::BadUtf8),
    }
}

} // verus!
