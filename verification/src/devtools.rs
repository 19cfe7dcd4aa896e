//! The devtools adapter: publishes the host application's state into the
//! channel and records every dispatched message, containing every failure
//! so that the host application is never disturbed.
//!
//! Serialized models and messages reach the adapter as already-encoded
//! transport values (`Result<Value, SerializationError>`): the encoder
//! that produces them from the host's own types lives outside the
//! library, and a failed encoding flows in as the `Err` case.

use vstd::prelude::*;
use crate::env::Globals;
use crate::errors::{ChannelError, InitError, LogEntry, SerializationError};
use crate::value::{Value, lookup};

verus! {

/// The well-known key of the channel object in the global namespace.
pub open spec fn root_key_name() -> Seq<char> {
    "SEED_DEVTOOLS_EXTENSION"@
}

/// The channel field that holds the most recently published model.
pub open spec fn model_key_name() -> Seq<char> {
    "model"@
}

/// The channel field that holds the ordered log of recorded messages.
pub open spec fn messages_key_name() -> Seq<char> {
    "messages"@
}

/// The channel field that names the adapter version that created it.
pub open spec fn version_key_name() -> Seq<char> {
    "version"@
}

/// The version string written into a freshly initialized channel.
pub open spec fn adapter_version() -> Seq<char> {
    "0.1.0"@
}

/// The channel object in the global namespace, if the well-known key is
/// bound at all.
pub open spec fn channel_root(env: Globals) -> Option<Value> {
    env.slot(root_key_name())
}

/// The well-known key is bound to an object-typed value: the channel can
/// be used.
pub open spec fn channel_present(env: Globals) -> bool {
    channel_root(env) matches Some(v) && v.is_object()
}

/// The value of one field of the channel object, if the channel is
/// present and carries the field.
pub open spec fn channel_field(env: Globals, key: Seq<char>) -> Option<Value> {
    if channel_present(env) {
        lookup((channel_root(env)->Some_0)->Obj_0@, key)
    } else {
        None
    }
}

/// The model slot of the channel: the most recently published serialized
/// model.
pub open spec fn channel_model(env: Globals) -> Option<Value> {
    channel_field(env, model_key_name())
}

/// The messages slot of the channel, provided it holds an array: the
/// ordered log of recorded messages.
pub open spec fn channel_messages(env: Globals) -> Option<Seq<Value>> {
    match channel_field(env, messages_key_name()) {
        Some(v) => if v is Arr {
            Some(v->Arr_0@)
        } else {
            None
        },
        None => None,
    }
}

/// What one recording does to the message log: it appends the serialized
/// message, keeping everything already recorded in place.
pub open spec fn record_effect(msgs: Seq<Value>, m: Value) -> Seq<Value> {
    msgs.push(m)
}

/// The fixed notification envelope, posted once per model publish to tell
/// the inspection tool to re-read the model slot.
pub open spec fn is_envelope(v: Value) -> bool {
    &&& v matches Value::Obj(fs)
    &&& fs@.len() == 2
    &&& fs@[0].0@ == "type"@
    &&& fs@[0].1 matches Value::Str(t) && t@ == "TO_SEED_DEVTOOLS"@
    &&& fs@[1].0@ == "action"@
    &&& fs@[1].1 matches Value::Str(a) && a@ == "RELOAD_MODEL"@
}

/// The channel content a fresh initialization writes: the adapter
/// version, an empty message log, and nothing else — in particular no
/// model slot yet.
pub open spec fn is_initial_payload(v: Value) -> bool {
    &&& v matches Value::Obj(fs)
    &&& fs@.len() == 2
    &&& fs@[0].0@ == version_key_name()
    &&& fs@[0].1 matches Value::Str(s) && s@ == adapter_version()
    &&& fs@[1].0@ == messages_key_name()
    &&& fs@[1].1 matches Value::Arr(a) && a@.len() == 0
}

/// Field-by-field reading of the initial payload: the version names the
/// adapter, the message log is empty, and the model slot is absent.
pub proof fn lemma_initial_payload_fields(v: Value)
    requires
        is_initial_payload(v),
    ensures
        lookup(v->Obj_0@, version_key_name()) matches Some(s) && s matches Value::Str(vs)
            && vs@ == adapter_version(),
        lookup(v->Obj_0@, messages_key_name()) matches Some(m) && m matches Value::Arr(a)
            && a@.len() == 0,
        lookup(v->Obj_0@, model_key_name()) is None,
{
    reveal_strlit("version");
    reveal_strlit("messages");
    reveal_strlit("model");
    let fs = v->Obj_0@;
    assert(fs.drop_first()[0] == fs[1]);
    assert(fs.drop_first().drop_first().len() == 0);
    assert(version_key_name().len() == 7);
    assert(messages_key_name().len() == 8);
    assert(model_key_name().len() == 5);
    assert(lookup(fs, messages_key_name()) == lookup(fs.drop_first(), messages_key_name()));
    assert(lookup(fs.drop_first(), messages_key_name()) == Some(fs[1].1));
    assert(lookup(fs, model_key_name()) == lookup(fs.drop_first(), model_key_name()));
    assert(lookup(fs.drop_first(), model_key_name()) == lookup(
        fs.drop_first().drop_first(),
        model_key_name(),
    ));
    assert(lookup(fs.drop_first().drop_first(), model_key_name()) is None);
}

/// One report of a publish attempt: whether the model slot was written,
/// the notifications to post (always exactly one), and the diagnostics to
/// log.
pub struct PublishReport {
    pub written: bool,
    pub notifications: Vec<Value>,
    pub logs: Vec<LogEntry>,
}

/// One report of a message-recording attempt: whether the message was
/// appended, and the diagnostics to log.
pub struct RecordReport {
    pub recorded: bool,
    pub logs: Vec<LogEntry>,
}

/// Builds the notification envelope.
pub fn notification_envelope() -> (v: Value)
    ensures
        is_envelope(v),
{
    let mut fs: Vec<(String, Value)> = Vec::new();
    fs.push(("type".to_owned(), Value::Str("TO_SEED_DEVTOOLS".to_owned())));
    fs.push(("action".to_owned(), Value::Str("RELOAD_MODEL".to_owned())));
    Value::Obj(fs)
}

/// The adapter: holds the keys it shares with the inspection tool, and
/// the version it stamps into a fresh channel.
pub struct DevTools {
    pub root_key: String,
    pub model_key: String,
    pub messages_key: String,
    pub version: String,
}

impl DevTools {
    /// The adapter carries exactly the agreed key names.
    pub open spec fn wf(self) -> bool {
        &&& self.root_key@ == root_key_name()
        &&& self.model_key@ == model_key_name()
        &&& self.messages_key@ == messages_key_name()
        &&& self.version@ == adapter_version()
    }

    pub fn new() -> (dt: DevTools)
        ensures
            dt.wf(),
    {
        DevTools {
            root_key: "SEED_DEVTOOLS_EXTENSION".to_owned(),
            model_key: "model".to_owned(),
            messages_key: "messages".to_owned(),
            version: "0.1.0".to_owned(),
        }
    }

    /// Resolves the channel: succeeds exactly when the well-known key is
    /// bound to an object-typed value. On failure the error names the
    /// missing key; the namespace is not touched (it is only read).
    pub fn get_root(&self, env: &Globals) -> (r: Result<(), ChannelError>)
        requires
            self.wf(),
        ensures
            r is Ok <==> channel_present(*env),
            r matches Err(e) ==> e matches ChannelError::NotFound { key } && key@
                == root_key_name(),
    {
        match env.get(&self.root_key) {
            Some(v) => match v {
                Value::Obj(_) => Ok(()),
                _ => Err(ChannelError::NotFound { key: self.root_key.clone() }),
            },
            None => Err(ChannelError::NotFound { key: self.root_key.clone() }),
        }
    }

    /// Builds the initial channel content.
    pub fn initial_payload(&self) -> (v: Value)
        requires
            self.wf(),
        ensures
            is_initial_payload(v),
    {
        let mut fs: Vec<(String, Value)> = Vec::new();
        fs.push(("version".to_owned(), Value::Str(self.version.clone())));
        fs.push(("messages".to_owned(), Value::Arr(Vec::new())));
        Value::Obj(fs)
    }

    /// Initializes the channel: writes the initial payload to the
    /// well-known key, unconditionally overwriting whatever was bound
    /// there before, and leaving every other slot of the namespace
    /// unchanged.
    pub fn init(&self, env: &mut Globals) -> (r: Result<(), InitError>)
        requires
            self.wf(),
        ensures
            r is Ok,
            channel_root(*final(env)) matches Some(c) && is_initial_payload(c),
            forall|k: Seq<char>|
                k != root_key_name() ==> final(env).slot(k) == old(env).slot(k),
    {
        let payload = self.initial_payload();
        env.set(self.root_key.clone(), payload);
        Ok(())
    }

    /// Publishes a serialized model: writes it into the model slot of the
    /// channel and emits exactly one notification. A missing channel or a
    /// failed serialization leaves the namespace untouched and is only
    /// logged; the notification is emitted regardless.
    pub fn save_model(&self, env: &mut Globals, model: Result<Value, SerializationError>) -> (r:
        PublishReport)
        requires
            self.wf(),
        ensures
            r.notifications@.len() == 1,
            is_envelope(r.notifications@[0]),
            r.written == (channel_present(*old(env)) && model is Ok),
            channel_present(*old(env)) && model is Ok ==> ({
                &&& channel_present(*final(env))
                &&& channel_model(*final(env)) == Some(model->Ok_0)
                &&& forall|k: Seq<char>|
                    k != model_key_name() ==> channel_field(*final(env), k) == channel_field(
                        *old(env),
                        k,
                    )
                &&& channel_messages(*final(env)) == channel_messages(*old(env))
                &&& forall|k: Seq<char>|
                    k != root_key_name() ==> final(env).slot(k) == old(env).slot(k)
                &&& r.logs@.len() == 0
            }),
            !channel_present(*old(env)) ==> ({
                &&& final(env).slots@ == old(env).slots@
                &&& r.logs@.len() == 1
                &&& r.logs@[0] matches LogEntry::ChannelFailed(ChannelError::NotFound { key })
                    && key@ == root_key_name()
            }),
            channel_present(*old(env)) && model is Err ==> ({
                &&& final(env).slots@ == old(env).slots@
                &&& r.logs@.len() == 1
                &&& r.logs@[0] matches LogEntry::SerializationFailed(e) && e == model->Err_0
            }),
    {
        let mut logs: Vec<LogEntry> = Vec::new();
        let mut written = false;
        match self.get_root(env) {
            Err(e) => {
                logs.push(LogEntry::ChannelFailed(e));
            },
            Ok(_) => match model {
                Err(e) => {
                    logs.push(LogEntry::SerializationFailed(e));
                },
                Ok(m) => {
                    let ok = env.set_obj_field(&self.root_key, self.model_key.clone(), m);
                    assert(ok);
                    written = true;
                    proof {
                        // the model and messages keys differ, so the
                        // write to one slot cannot reach the other
                        reveal_strlit("messages");
                        reveal_strlit("model");
                        assert(messages_key_name().len() == 8);
                        assert(model_key_name().len() == 5);
                    }
                },
            },
        }
        let mut notifications: Vec<Value> = Vec::new();
        notifications.push(notification_envelope());
        PublishReport { written, notifications, logs }
    }

    /// Records a dispatched message: appends its serialized form to the
    /// message log of the channel, keeping everything already recorded,
    /// in arrival order. A missing channel, a malformed message log, or a
    /// failed serialization leaves the namespace untouched and is only
    /// logged. The model slot plays no part: recording neither reads nor
    /// writes it. The pre-update model is accepted for future
    /// extensibility and not persisted; callers that do not track it pass
    /// `None`.
    pub fn save_message(
        &self,
        env: &mut Globals,
        message: Result<Value, SerializationError>,
        _model_before: Option<&Value>,
    ) -> (r: RecordReport)
        requires
            self.wf(),
        ensures
            r.recorded == (channel_messages(*old(env)) is Some && message is Ok),
            channel_messages(*old(env)) is Some && message is Ok ==> ({
                &&& channel_present(*final(env))
                &&& channel_messages(*final(env)) == Some(record_effect(
                    channel_messages(*old(env))->Some_0,
                    message->Ok_0,
                ))
                &&& forall|k: Seq<char>|
                    k != messages_key_name() ==> channel_field(*final(env), k) == channel_field(
                        *old(env),
                        k,
                    )
                &&& channel_model(*final(env)) == channel_model(*old(env))
                &&& forall|k: Seq<char>|
                    k != root_key_name() ==> final(env).slot(k) == old(env).slot(k)
                &&& r.logs@.len() == 0
            }),
            !channel_present(*old(env)) ==> ({
                &&& final(env).slots@ == old(env).slots@
                &&& r.logs@.len() == 1
                &&& r.logs@[0] matches LogEntry::ChannelFailed(ChannelError::NotFound { key })
                    && key@ == root_key_name()
            }),
            channel_present(*old(env)) && channel_messages(*old(env)) is None ==> ({
                &&& final(env).slots@ == old(env).slots@
                &&& r.logs@.len() == 1
                &&& r.logs@[0] matches LogEntry::MessagesSlotMalformed { key } && key@
                    == messages_key_name()
            }),
            channel_messages(*old(env)) is Some && message is Err ==> ({
                &&& final(env).slots@ == old(env).slots@
                &&& r.logs@.len() == 1
                &&& r.logs@[0] matches LogEntry::SerializationFailed(e) && e == message->Err_0
            }),
    {
        let mut logs: Vec<LogEntry> = Vec::new();
        match self.get_root(env) {
            Err(e) => {
                logs.push(LogEntry::ChannelFailed(e));
                return RecordReport { recorded: false, logs };
            },
            Ok(_) => {},
        }
        let log_ok = match env.get(&self.root_key) {
            Some(root) => match root {
                Value::Obj(fs) => match crate::value::get_field(fs, &self.messages_key) {
                    Some(f) => match f {
                        Value::Arr(_) => true,
                        _ => false,
                    },
                    None => false,
                },
                _ => false,
            },
            None => false,
        };
        if !log_ok {
            logs.push(LogEntry::MessagesSlotMalformed { key: self.messages_key.clone() });
            return RecordReport { recorded: false, logs };
        }
        match message {
            Err(e) => {
                logs.push(LogEntry::SerializationFailed(e));
                RecordReport { recorded: false, logs }
            },
            Ok(m) => {
                let ok = env.push_obj_arr_field(&self.root_key, &self.messages_key, m);
                assert(ok);
                proof {
                    // the model and messages keys differ, so the append
                    // to the message log cannot reach the model slot
                    reveal_strlit("messages");
                    reveal_strlit("model");
                    assert(messages_key_name().len() == 8);
                    assert(model_key_name().len() == 5);
                }
                RecordReport { recorded: true, logs }
            },
        }
    }

    /// The first lifecycle event: initializes the channel (creating or
    /// resetting it), then publishes the starting model. After the call
    /// the channel is present with an empty message log and the adapter's
    /// version, and its model slot holds the starting model exactly when
    /// that model serialized; one notification is emitted either way.
    pub fn initialized(&self, env: &mut Globals, model: Result<Value, SerializationError>) -> (r:
        PublishReport)
        requires
            self.wf(),
        ensures
            r.notifications@.len() == 1,
            is_envelope(r.notifications@[0]),
            channel_present(*final(env)),
            channel_messages(*final(env)) == Some(Seq::<Value>::empty()),
            channel_field(*final(env), version_key_name()) matches Some(vv) && vv matches Value::Str(
                s,
            ) && s@ == adapter_version(),
            r.written == (model is Ok),
            model is Ok ==> channel_model(*final(env)) == Some(model->Ok_0) && r.logs@.len() == 0,
            model is Err ==> ({
                &&& channel_model(*final(env)) is None
                &&& r.logs@.len() == 1
                &&& r.logs@[0] matches LogEntry::SerializationFailed(e) && e == model->Err_0
            }),
            forall|k: Seq<char>|
                k != root_key_name() ==> final(env).slot(k) == old(env).slot(k),
    {
        match self.init(env) {
            Ok(_) => {},
            Err(_) => {
                // a failed initialization skips the publish step; on a
                // plain-data namespace initialization cannot fail
                proof {
                    assert(false);
                }
                return PublishReport {
                    written: false,
                    notifications: Vec::new(),
                    logs: Vec::new(),
                };
            },
        }
        proof {
            lemma_initial_payload_fields(channel_root(*env)->Some_0);
        }
        self.save_model(env, model)
    }

    /// The message lifecycle event: delegates to [`Self::save_message`].
    pub fn received(
        &self,
        env: &mut Globals,
        message: Result<Value, SerializationError>,
        model_before: Option<&Value>,
    ) -> (r: RecordReport)
        requires
            self.wf(),
        ensures
            r.recorded == (channel_messages(*old(env)) is Some && message is Ok),
            channel_messages(*old(env)) is Some && message is Ok ==> ({
                &&& channel_present(*final(env))
                &&& channel_messages(*final(env)) == Some(record_effect(
                    channel_messages(*old(env))->Some_0,
                    message->Ok_0,
                ))
                &&& forall|k: Seq<char>|
                    k != messages_key_name() ==> channel_field(*final(env), k) == channel_field(
                        *old(env),
                        k,
                    )
                &&& channel_model(*final(env)) == channel_model(*old(env))
                &&& forall|k: Seq<char>|
                    k != root_key_name() ==> final(env).slot(k) == old(env).slot(k)
                &&& r.logs@.len() == 0
            }),
            !(channel_messages(*old(env)) is Some && message is Ok) ==> final(env).slots@ == old(
                env,
            ).slots@ && r.logs@.len() == 1,
    {
        self.save_message(env, message, model_before)
    }

    /// The model-update lifecycle event: delegates to
    /// [`Self::save_model`].
    pub fn updated(&self, env: &mut Globals, model: Result<Value, SerializationError>) -> (r:
        PublishReport)
        requires
            self.wf(),
        ensures
            r.notifications@.len() == 1,
            is_envelope(r.notifications@[0]),
            r.written == (channel_present(*old(env)) && model is Ok),
            channel_present(*old(env)) && model is Ok ==> ({
                &&& channel_present(*final(env))
                &&& channel_model(*final(env)) == Some(model->Ok_0)
                &&& channel_messages(*final(env)) == channel_messages(*old(env))
                &&& forall|k: Seq<char>|
                    k != root_key_name() ==> final(env).slot(k) == old(env).slot(k)
                &&& r.logs@.len() == 0
            }),
            !(channel_present(*old(env)) && model is Ok) ==> final(env).slots@ == old(env).slots@
                && r.logs@.len() == 1,
    {
        self.save_model(env, model)
    }
}

/// The opt-in installation step: applied once while the host application
/// is being built, it creates the adapter and runs its first lifecycle
/// event with the application's starting model.
pub struct WithDevtools {}

impl WithDevtools {
    pub fn new() -> (w: WithDevtools) {
        WithDevtools {}
    }

    /// Installs the adapter: creates it, runs [`DevTools::initialized`]
    /// with the starting model, and hands the adapter back to be
    /// registered as the active devtools hook.
    pub fn apply(&self, env: &mut Globals, model: Result<Value, SerializationError>) -> (r: (
        DevTools,
        PublishReport,
    ))
        ensures
            r.0.wf(),
            r.1.notifications@.len() == 1,
            is_envelope(r.1.notifications@[0]),
            channel_present(*final(env)),
            channel_messages(*final(env)) == Some(Seq::<Value>::empty()),
            r.1.written == (model is Ok),
            model is Ok ==> channel_model(*final(env)) == Some(model->Ok_0),
            forall|k: Seq<char>|
                k != root_key_name() ==> final(env).slot(k) == old(env).slot(k),
    {
        let dt = DevTools::new();
        let report = dt.initialized(env, model);
        (dt, report)
    }
}

} // verus!
