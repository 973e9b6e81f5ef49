//! What each entry point of the boundary decides.
//!
//! An entry point is a function of what the native side has observed so
//! far: the text handles it was given, and what the collaborators behind
//! the boundary (the parser of the storage engine's data model, the storage
//! engine itself) have answered. It says what to do next: ask a
//! collaborator, or hand a reply back to the host. The code that talks to
//! the host runtime and to the collaborators calls it again after each
//! answer, until it gets a reply.
//!
//! A reply is host text or nothing. Nothing is the null handle: the host
//! reads it as "the request was not understood". That is the reply where
//! a handle gave no text, before any collaborator is asked, and where a
//! collaborator faulted. A request that was understood and then failed is
//! answered with an error object, never with nothing.

use vstd::prelude::*;
use vstd::string::*;
use vstd::utf8::*;
use crate::config::{AWConfig, ConfigView};
use crate::datastore::{engine_location, openDatastore, Access, DatastoreSlot};
use crate::dirs::{set_android_data_dir, DirectoryCell};
use crate::fault::Contained;
use crate::gate::InitGate;
use crate::json::{error_object_json, error_object_text};
use crate::marshal::{
    c_text, jstring_to_string, native_text, string_to_jstring, text_of, to_c_text, to_native, CText,
    HostText, MarshalError, TextHandle,
};

verus! {

/// What a collaborator answered: nothing yet, or how the contained call
/// ended, with the collaborator's own account of a failure.
pub type Answer<T> = Option<Contained<Result<T, String>>>;

/// A request to the storage engine.
pub enum StoreCall {
    /// All buckets, as JSON.
    GetBuckets,
    /// Create the bucket that the parser made of the descriptor.
    CreateBucket,
    /// Merge the event that the parser made into this bucket, within the
    /// merge window the host gave.
    Heartbeat { bucket_id: String },
    /// The newest events of this bucket, at most `limit` of them, as JSON.
    GetEvents { bucket_id: String, limit: u64 },
}

/// What is to be done next for a request.
pub enum Step {
    /// Hand this text to the parser.
    Parse(String),
    /// Put this request to the storage engine.
    Store(StoreCall),
    /// Hand this back to the host.
    Reply(Option<HostText>),
}

/// A request to the storage engine, as a value of specifications.
pub enum StoreCallView {
    GetBuckets,
    CreateBucket,
    Heartbeat { bucket_id: Seq<char> },
    GetEvents { bucket_id: Seq<char>, limit: u64 },
}

/// A step, as a value of specifications.
pub enum StepView {
    Parse(Seq<char>),
    Store(StoreCallView),
    Reply(Option<Seq<char>>),
}

impl View for StoreCall {
    type V = StoreCallView;

    open spec fn view(&self) -> StoreCallView {
        match *self {
            StoreCall::GetBuckets => StoreCallView::GetBuckets,
            StoreCall::CreateBucket => StoreCallView::CreateBucket,
            StoreCall::Heartbeat { bucket_id } => StoreCallView::Heartbeat { bucket_id: bucket_id@ },
            StoreCall::GetEvents { bucket_id, limit } => StoreCallView::GetEvents {
                bucket_id: bucket_id@,
                limit: limit,
            },
        }
    }
}

impl View for Step {
    type V = StepView;

    open spec fn view(&self) -> StepView {
        match *self {
            Step::Parse(payload) => StepView::Parse(payload@),
            Step::Store(call) => StepView::Store(call@),
            Step::Reply(Some(text)) => StepView::Reply(Some(text@)),
            Step::Reply(None) => StepView::Reply(None),
        }
    }
}

/// The reply that carries `text`.
pub open spec fn reply_with(text: Seq<char>) -> StepView {
    StepView::Reply(Some(text))
}

/// The reply to a request that was understood and failed.
pub open spec fn error_reply(message: Seq<char>) -> StepView {
    StepView::Reply(Some(error_object_text(message)))
}

/// Whom a greeting addresses: the name in `to`, or a placeholder where
/// `to` is not UTF-8.
pub open spec fn greeting_recipient(to: Seq<u8>) -> Seq<char> {
    if valid_utf8(to) {
        decode_utf8(to)
    } else {
        "there"@
    }
}

/// The greeting for a recipient.
pub open spec fn greeting_text(recipient: Seq<char>) -> Seq<char> {
    "Hello "@ + recipient + " (from Rust!)"@
}

/// What `rust_greeting` returns.
pub open spec fn rust_greeting_spec(to: Option<Seq<u8>>) -> Option<Seq<char>> {
    match to {
        None => None,
        Some(name) => match c_text(greeting_text(greeting_recipient(name))) {
            Ok(text) => Some(text),
            Err(_) => None,
        },
    }
}

/// Greets the recipient whose name is the C string `to`, given here by its
/// bytes without the terminator, or `None` for the null pointer.
///
/// A name that is not UTF-8 is replaced by a placeholder. The reply is a
/// C string: it is nothing for the null pointer, and for a greeting that
/// would hold a NUL.
pub fn rust_greeting(to: Option<&[u8]>) -> (greeting: Option<CText>)
    ensures
        match to {
            None => greeting is None,
            Some(name) => match rust_greeting_spec(Some(name@)) {
                Some(expected) => greeting matches Some(found) && found@ == expected,
                None => greeting is None,
            },
        },
{
    match to {
        None => None,
        Some(name) => {
            let recipient = match text_of(name) {
                Some(text) => {
                    proof {
                        encode_utf8_decode_utf8(text@);
                    }
                    text
                },
                None => "there",
            };
            let mut text = "Hello ".to_owned();
            text.append(recipient);
            text.append(" (from Rust!)");
            match to_c_text(text.as_str()) {
                Ok(made) => Some(made),
                Err(_) => None,
            }
        },
    }
}

/// What the host's `greeting` returns for a handle.
pub open spec fn greeting_reply(java_pattern: TextHandle) -> Option<Seq<char>> {
    match java_pattern {
        TextHandle::Settled(Ok(name)) => rust_greeting_spec(Some(name@)),
        _ => None,
    }
}

/// The host's `greeting`: the greeting for the name behind `java_pattern`,
/// or nothing where the handle gave no bytes.
#[allow(non_snake_case)]
pub fn Java_net_activitywatch_android_RustInterface_greeting(java_pattern: &TextHandle) -> (reply:
    Option<HostText>)
    ensures
        match greeting_reply(*java_pattern) {
            Some(expected) => reply matches Some(found) && found@ == expected,
            None => reply is None,
        },
{
    match java_pattern {
        TextHandle::Settled(Ok(name)) => {
            match rust_greeting(Some(name.as_slice())) {
                Some(world) => string_to_jstring(world.as_str()),
                None => None,
            }
        },
        _ => None,
    }
}

/// The error object for `msg`, ready to go to the host. There always is
/// one, whatever the message holds.
pub fn create_error_object(msg: &str) -> (reply: Option<HostText>)
    ensures
        reply matches Some(found) && found@ == error_object_text(msg@),
{
    let json = error_object_json(msg);
    string_to_jstring(json.as_str())
}

/// The server-wide state of the embedded service.
pub struct ServerState {
    /// How to get at the storage engine.
    pub datastore: Access,
    /// Where the static assets lie; `None` for the built-in ones.
    pub asset_path: Option<String>,
    /// The identity of this device.
    pub device_id: String,
}

/// The port the embedded service listens on.
pub const SERVER_PORT: u16 = 5600;

/// Assembles what the embedded service is launched with: the state that
/// holds the storage engine and the device's identity, and the default
/// configuration on the fixed port.
pub fn start_server(slot: &mut DatastoreSlot, cell: &DirectoryCell, device_id: String) -> (launch: (
    ServerState,
    AWConfig,
))
    ensures
        launch.0.device_id == device_id,
        launch.0.asset_path is None,
        launch.0.datastore.location() == match old(slot)@ {
            Some(bound) => bound,
            None => engine_location(cell@),
        },
        launch.0.datastore is Construct <==> old(slot)@ is None,
        final(slot)@ == Some(launch.0.datastore.location()),
        launch.1@ == ConfigView::initial().with_port(SERVER_PORT),
{
    let datastore = openDatastore(slot, cell);
    let server_state = ServerState { datastore: datastore, asset_path: None, device_id: device_id };
    let mut server_config = AWConfig::default();
    server_config.port = SERVER_PORT;
    (server_state, server_config)
}

/// The host's `initialize`: enters. The answer says whether the
/// caller has to set up diagnostics now.
#[allow(non_snake_case)]
pub fn Java_net_activitywatch_android_RustInterface_initialize(gate: &mut InitGate) -> (run_setup:
    bool)
    ensures
        run_setup == !old(gate)@,
        final(gate)@,
{
    gate.ensure_initialized()
}

/// The data directory behind a handle: its text, which must not be empty.
pub open spec fn data_dir_text(java_dir: TextHandle) -> Result<Seq<char>, MarshalError> {
    match native_text(java_dir) {
        Ok(path) => if path.len() == 0 {
            Err(MarshalError::Empty)
        } else {
            Ok(path)
        },
        Err(reason) => Err(reason),
    }
}

/// What `setDataDir` did.
pub struct DataDirReport {
    /// Whether the caller has to set up diagnostics now.
    pub run_setup: bool,
    /// Whether the data directory was written, or why it was not.
    pub stored: Result<(), MarshalError>,
}

/// The host's `setDataDir`: enters, then writes the directory
/// behind `java_dir` to the cell. Without a directory (no text behind the
/// handle, or the empty text) the cell stays as it is.
#[allow(non_snake_case)]
pub fn Java_net_activitywatch_android_RustInterface_setDataDir(
    gate: &mut InitGate,
    cell: &mut DirectoryCell,
    java_dir: &TextHandle,
) -> (report: DataDirReport)
    ensures
        report.run_setup == !old(gate)@,
        final(gate)@,
        match data_dir_text(*java_dir) {
            Ok(path) => report.stored is Ok && final(cell)@ == old(cell)@.set(path),
            Err(reason) => report.stored == Err::<(), MarshalError>(reason) && final(cell)@ == old(
                cell,
            )@,
        },
{
    let run_setup = gate.ensure_initialized();
    let stored = match to_native(java_dir) {
        Ok(path) => {
            if path.as_str().unicode_len() == 0 {
                Err(MarshalError::Empty)
            } else {
                set_android_data_dir(cell, path.as_str());
                Ok(())
            }
        },
        Err(reason) => Err(reason),
    };
    DataDirReport { run_setup: run_setup, stored: stored }
}

/// The start of the message for buckets that could not be listed.
pub open spec fn get_buckets_failure() -> Seq<char> {
    "Something went wrong when trying to get buckets: "@
}

/// What `getBuckets` does next.
pub open spec fn get_buckets_step(stored: Answer<String>) -> StepView {
    match stored {
        None => StepView::Store(StoreCallView::GetBuckets),
        Some(Contained::Faulted) => StepView::Reply(None),
        Some(Contained::Returned(Ok(listing))) => reply_with(listing@),
        Some(Contained::Returned(Err(reason))) => error_reply(get_buckets_failure() + reason@),
    }
}

/// The host's `getBuckets`: asks the storage engine for all buckets and
/// replies with its JSON listing. A failure of the engine is answered
/// with an error object.
#[allow(non_snake_case)]
pub fn Java_net_activitywatch_android_RustInterface_getBuckets(stored: &Answer<String>) -> (step:
    Step)
    ensures
        step@ == get_buckets_step(*stored),
{
    match stored {
        None => Step::Store(StoreCall::GetBuckets),
        Some(Contained::Faulted) => Step::Reply(None),
        Some(Contained::Returned(Ok(listing))) => Step::Reply(string_to_jstring(listing.as_str())),
        Some(Contained::Returned(Err(reason))) => {
            let mut message = "Something went wrong when trying to get buckets: ".to_owned();
            message.append(reason.as_str());
            Step::Reply(create_error_object(message.as_str()))
        },
    }
}

/// The start of the message for a bucket that could not be created.
pub open spec fn create_bucket_failure() -> Seq<char> {
    "Something went wrong when trying to create bucket: "@
}

/// What `createBucket` does next.
pub open spec fn create_bucket_step(
    java_bucket: TextHandle,
    parsed: Answer<()>,
    stored: Answer<()>,
) -> StepView {
    match native_text(java_bucket) {
        Err(_) => StepView::Reply(None),
        Ok(descriptor) => match parsed {
            None => StepView::Parse(descriptor),
            Some(Contained::Faulted) => StepView::Reply(None),
            Some(Contained::Returned(Err(reason))) => error_reply(reason@),
            Some(Contained::Returned(Ok(_))) => match stored {
                None => StepView::Store(StoreCallView::CreateBucket),
                Some(Contained::Faulted) => StepView::Reply(None),
                Some(Contained::Returned(Ok(_))) => reply_with("Bucket successfully created"@),
                Some(Contained::Returned(Err(reason))) => error_reply(
                    create_bucket_failure() + reason@,
                ),
            },
        },
    }
}

/// The host's `createBucket`. A handle that gives no text is answered with
/// nothing, and nobody is asked. The descriptor behind `java_bucket` goes
/// to the parser first. A descriptor that the parser rejects is answered
/// with an error object that carries the parser's reason, and the storage
/// engine is not asked; only a bucket that the parser made goes to the
/// engine, whose own failure is answered with an error object too.
#[allow(non_snake_case)]
pub fn Java_net_activitywatch_android_RustInterface_createBucket(
    java_bucket: &TextHandle,
    parsed: &Answer<()>,
    stored: &Answer<()>,
) -> (step: Step)
    ensures
        step@ == create_bucket_step(*java_bucket, *parsed, *stored),
{
    let descriptor = match jstring_to_string(java_bucket) {
        Ok(found) => found,
        Err(_) => {
            return Step::Reply(None);
        },
    };
    match parsed {
        None => Step::Parse(descriptor),
        Some(Contained::Faulted) => Step::Reply(None),
        Some(Contained::Returned(Err(reason))) => Step::Reply(create_error_object(reason.as_str())),
        Some(Contained::Returned(Ok(_))) => match stored {
            None => Step::Store(StoreCall::CreateBucket),
            Some(Contained::Faulted) => Step::Reply(None),
            Some(Contained::Returned(Ok(_))) => Step::Reply(
                string_to_jstring("Bucket successfully created"),
            ),
            Some(Contained::Returned(Err(reason))) => {
                let mut message = "Something went wrong when trying to create bucket: ".to_owned();
                message.append(reason.as_str());
                Step::Reply(create_error_object(message.as_str()))
            },
        },
    }
}

/// The start of the message for a heartbeat that could not be merged.
pub open spec fn heartbeat_failure() -> Seq<char> {
    "Something went wrong when trying to send heartbeat: "@
}

/// What `heartbeat` does next.
pub open spec fn heartbeat_step(
    java_bucket_id: TextHandle,
    java_event: TextHandle,
    parsed: Answer<()>,
    stored: Answer<()>,
) -> StepView {
    match (native_text(java_bucket_id), native_text(java_event)) {
        (Ok(bucket_id), Ok(event)) => match parsed {
            None => StepView::Parse(event),
            Some(Contained::Faulted) => StepView::Reply(None),
            Some(Contained::Returned(Err(reason))) => error_reply(reason@),
            Some(Contained::Returned(Ok(_))) => match stored {
                None => StepView::Store(StoreCallView::Heartbeat { bucket_id: bucket_id }),
                Some(Contained::Faulted) => StepView::Reply(None),
                Some(Contained::Returned(Ok(_))) => reply_with("Heartbeat successfully received"@),
                Some(Contained::Returned(Err(reason))) => error_reply(
                    heartbeat_failure() + reason@,
                ),
            },
        },
        _ => StepView::Reply(None),
    }
}

/// The host's `heartbeat`. Where either handle gives no text the answer is
/// nothing, and nobody is asked. The event behind `java_event` goes to the
/// parser first; an event that the parser rejects is answered with an
/// error object, and the storage engine is not asked. The event that the
/// parser made is merged into the bucket named behind `java_bucket_id`; a
/// bucket that does not exist, like any other failure of the engine, is
/// answered with an error object.
#[allow(non_snake_case)]
pub fn Java_net_activitywatch_android_RustInterface_heartbeat(
    java_bucket_id: &TextHandle,
    java_event: &TextHandle,
    parsed: &Answer<()>,
    stored: &Answer<()>,
) -> (step: Step)
    ensures
        step@ == heartbeat_step(*java_bucket_id, *java_event, *parsed, *stored),
{
    let bucket_id = match jstring_to_string(java_bucket_id) {
        Ok(found) => found,
        Err(_) => {
            return Step::Reply(None);
        },
    };
    let event = match jstring_to_string(java_event) {
        Ok(found) => found,
        Err(_) => {
            return Step::Reply(None);
        },
    };
    match parsed {
        None => Step::Parse(event),
        Some(Contained::Faulted) => Step::Reply(None),
        Some(Contained::Returned(Err(reason))) => Step::Reply(create_error_object(reason.as_str())),
        Some(Contained::Returned(Ok(_))) => match stored {
            None => Step::Store(StoreCall::Heartbeat { bucket_id: bucket_id }),
            Some(Contained::Faulted) => Step::Reply(None),
            Some(Contained::Returned(Ok(_))) => Step::Reply(
                string_to_jstring("Heartbeat successfully received"),
            ),
            Some(Contained::Returned(Err(reason))) => {
                let mut message = "Something went wrong when trying to send heartbeat: ".to_owned();
                message.append(reason.as_str());
                Step::Reply(create_error_object(message.as_str()))
            },
        },
    }
}

/// The limit the storage engine is given for the host's 32-bit limit: the
/// same number, read as unsigned after the sign was extended to 64 bits.
pub open spec fn event_limit_spec(java_limit: i32) -> u64 {
    if java_limit >= 0 {
        java_limit as u64
    } else {
        (java_limit + 0x1_0000_0000_0000_0000) as u64
    }
}

/// The limit the storage engine is given for the host's 32-bit limit.
pub fn event_limit(java_limit: i32) -> (limit: u64)
    ensures
        limit == event_limit_spec(java_limit),
{
    if java_limit >= 0 {
        java_limit as u64
    } else {
        u64::MAX - ((-(java_limit + 1)) as u64)
    }
}

/// The start of the message for events that could not be fetched.
pub open spec fn get_events_failure() -> Seq<char> {
    "Something went wrong when trying to get events: "@
}

/// What `getEvents` does next.
pub open spec fn get_events_step(
    java_bucket_id: TextHandle,
    java_limit: i32,
    stored: Answer<String>,
) -> StepView {
    match native_text(java_bucket_id) {
        Err(_) => StepView::Reply(None),
        Ok(bucket_id) => match stored {
            None => StepView::Store(
                StoreCallView::GetEvents {
                    bucket_id: bucket_id,
                    limit: event_limit_spec(java_limit),
                },
            ),
            Some(Contained::Faulted) => StepView::Reply(None),
            Some(Contained::Returned(Ok(listing))) => reply_with(listing@),
            Some(Contained::Returned(Err(reason))) => error_reply(get_events_failure() + reason@),
        },
    }
}

/// The host's `getEvents`: asks the storage engine for the newest events
/// of the bucket named behind `java_bucket_id` and replies with its JSON
/// listing, which is `[]` for a bucket without events. A handle that gives
/// no text is answered with nothing, and the engine is not asked. A
/// failure of the engine is answered with an error object.
#[allow(non_snake_case)]
pub fn Java_net_activitywatch_android_RustInterface_getEvents(
    java_bucket_id: &TextHandle,
    java_limit: i32,
    stored: &Answer<String>,
) -> (step: Step)
    ensures
        step@ == get_events_step(*java_bucket_id, java_limit, *stored),
{
    let bucket_id = match jstring_to_string(java_bucket_id) {
        Ok(found) => found,
        Err(_) => {
            return Step::Reply(None);
        },
    };
    match stored {
        None => Step::Store(
            StoreCall::GetEvents { bucket_id: bucket_id, limit: event_limit(java_limit) },
        ),
        Some(Contained::Faulted) => Step::Reply(None),
        Some(Contained::Returned(Ok(listing))) => Step::Reply(string_to_jstring(listing.as_str())),
        Some(Contained::Returned(Err(reason))) => {
            let mut message = "Something went wrong when trying to get events: ".to_owned();
            message.append(reason.as_str());
            Step::Reply(create_error_object(message.as_str()))
        },
    }
}

/// A handle that gave no text is answered with nothing, at once: neither
/// the parser nor the storage engine is asked, whatever they might have
/// said.
pub proof fn lemma_unreadable_handle_is_answered_with_nothing(
    unreadable: TextHandle,
    other: TextHandle,
    java_limit: i32,
    parsed: Answer<()>,
    stored: Answer<()>,
    listed: Answer<String>,
)
    requires
        native_text(unreadable) is Err,
    ensures
        create_bucket_step(unreadable, parsed, stored) == StepView::Reply(None),
        heartbeat_step(unreadable, other, parsed, stored) == StepView::Reply(None),
        heartbeat_step(other, unreadable, parsed, stored) == StepView::Reply(None),
        get_events_step(unreadable, java_limit, listed) == StepView::Reply(None),
{
}

/// A descriptor or an event that the parser rejects is answered at once,
/// with the error object for the parser's reason; whatever a storage
/// engine might have said does not enter into it.
pub proof fn lemma_rejected_payload_skips_storage(
    java_bucket_id: TextHandle,
    payload: TextHandle,
    reason: String,
    stored: Answer<()>,
)
    requires
        native_text(java_bucket_id) is Ok,
        native_text(payload) is Ok,
    ensures
        create_bucket_step(payload, Some(Contained::Returned(Err(reason))), stored) == error_reply(
            reason@,
        ),
        heartbeat_step(java_bucket_id, payload, Some(Contained::Returned(Err(reason))), stored)
            == error_reply(reason@),
{
}

/// The storage engine is asked to create a bucket or to merge an event
/// only after the parser accepted the payload.
pub proof fn lemma_storage_needs_parsed_payload(
    java_bucket_id: TextHandle,
    payload: TextHandle,
    parsed: Answer<()>,
    stored: Answer<()>,
)
    ensures
        create_bucket_step(payload, parsed, stored) is Store ==> (parsed matches Some(
            Contained::Returned(Ok(_)),
        )) && stored is None,
        heartbeat_step(java_bucket_id, payload, parsed, stored) is Store ==> (parsed matches Some(
            Contained::Returned(Ok(_)),
        )) && stored is None,
{
}

/// A failure that the storage engine reports is never answered with
/// nothing: the reply is an error object.
pub proof fn lemma_refusal_is_answered(
    java_bucket_id: TextHandle,
    payload: TextHandle,
    java_limit: i32,
    reason: String,
)
    requires
        native_text(java_bucket_id) is Ok,
        native_text(payload) is Ok,
    ensures
        get_buckets_step(Some(Contained::Returned(Err(reason)))) matches StepView::Reply(Some(_)),
        create_bucket_step(
            payload,
            Some(Contained::Returned(Ok(()))),
            Some(Contained::Returned(Err(reason))),
        ) matches StepView::Reply(Some(_)),
        heartbeat_step(
            java_bucket_id,
            payload,
            Some(Contained::Returned(Ok(()))),
            Some(Contained::Returned(Err(reason))),
        ) matches StepView::Reply(Some(_)),
        get_events_step(java_bucket_id, java_limit, Some(Contained::Returned(Err(reason))))
            matches StepView::Reply(Some(_)),
{
}

} // verus!
