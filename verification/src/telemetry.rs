//! Usage statistics: nothing is recorded without consent, an event takes a line of a
//! file for each day, and the files can be bundled.
use crate::config::AppConfig;
use crate::installer::APP_VERSION;
use crate::paths::join;
use crate::text::{chars_of, decimal, joined, owned, two_digits};
use vstd::prelude::*;

verus! {

/// `serde_json::Map`, an object whose fields are kept in the order of their names.
#[verifier::external_type_specification]
#[verifier::external_body]
#[verifier::reject_recursive_types(K)]
#[verifier::reject_recursive_types(V)]
pub struct ExObject<K, V>(serde_json::Map<K, V>);

/// `serde_json::Value`, what a field of an object holds.
#[verifier::external_type_specification]
#[verifier::external_body]
pub struct ExValue(serde_json::Value);

/// What a field holds.
pub ghost enum Field {
    Text(Seq<char>),
    Number(int),
    Flag(bool),
    Absent,
    /// Objects, by their fields.
    List(Seq<Map<Seq<char>, Field>>),
    /// Anything else, as JSON.
    Raw(Seq<char>),
}

/// The fields of an object: a string is a `Text`, an integer a `Number`, a boolean a
/// `Flag`, null is `Absent`, an array of nothing but objects is a `List` of their fields,
/// and any other value is the `Raw` JSON of it.
pub uninterp spec fn fields_of(object: serde_json::Map<String, serde_json::Value>) -> Map<
    Seq<char>,
    Field,
>;

/// The fields of objects.
pub open spec fn all_fields(objects: Seq<serde_json::Map<String, serde_json::Value>>) -> Seq<
    Map<Seq<char>, Field>,
> {
    objects.map_values(|object: serde_json::Map<String, serde_json::Value>| fields_of(object))
}

/// A text, or a message, as a mathematical value.
pub open spec fn written(r: Result<String, String>) -> Result<Seq<char>, Seq<char>> {
    match r {
        Ok(text) => Ok(text@),
        Err(message) => Err(message@),
    }
}

/// No fields.
pub open spec fn no_fields() -> Map<Seq<char>, Field> {
    Map::empty()
}

/// The JSON of an object with these fields on one line.
pub uninterp spec fn json_of(fields: Map<Seq<char>, Field>) -> Seq<char>;

/// The JSON of an object with these fields, indented over lines; or why there is none.
pub uninterp spec fn pretty_of(fields: Map<Seq<char>, Field>) -> Result<Seq<char>, Seq<char>>;

/// `serde_json::Map::new`: an object without fields.
#[verifier::external_body]
fn new_object() -> (object: serde_json::Map<String, serde_json::Value>)
    ensures
        fields_of(object) == no_fields(),
{
    serde_json::Map::new()
}

/// `serde_json::Map::insert` of a string: the field holds the string, whatever it held
/// before, and the other fields stay.
#[verifier::external_body]
fn put_text(object: &mut serde_json::Map<String, serde_json::Value>, key: &str, text: &str)
    ensures
        fields_of(*final(object)) == fields_of(*old(object)).insert(key@, Field::Text(text@)),
{
    object.insert(key.to_owned(), serde_json::Value::from(text));
}

/// `serde_json::Map::insert` of an unsigned integer: the field holds the number,
/// whatever it held before, and the other fields stay.
#[verifier::external_body]
fn put_count(object: &mut serde_json::Map<String, serde_json::Value>, key: &str, n: u64)
    ensures
        fields_of(*final(object)) == fields_of(*old(object)).insert(key@, Field::Number(n as int)),
{
    object.insert(key.to_owned(), serde_json::Value::from(n));
}

/// `serde_json::Map::insert` of a signed integer: the field holds the number, whatever
/// it held before, and the other fields stay.
#[verifier::external_body]
fn put_number(object: &mut serde_json::Map<String, serde_json::Value>, key: &str, n: i32)
    ensures
        fields_of(*final(object)) == fields_of(*old(object)).insert(key@, Field::Number(n as int)),
{
    object.insert(key.to_owned(), serde_json::Value::from(n));
}

/// `serde_json::Map::insert` of a boolean: the field holds it, whatever it held before,
/// and the other fields stay.
#[verifier::external_body]
fn put_flag(object: &mut serde_json::Map<String, serde_json::Value>, key: &str, flag: bool)
    ensures
        fields_of(*final(object)) == fields_of(*old(object)).insert(key@, Field::Flag(flag)),
{
    object.insert(key.to_owned(), serde_json::Value::from(flag));
}

/// `serde_json::Map::insert` of null: the field is null, whatever it held before, and
/// the other fields stay.
#[verifier::external_body]
fn put_absent(object: &mut serde_json::Map<String, serde_json::Value>, key: &str)
    ensures
        fields_of(*final(object)) == fields_of(*old(object)).insert(key@, Field::Absent),
{
    object.insert(key.to_owned(), serde_json::Value::Null);
}

/// `serde_json::Map::insert` of an array of objects: the field holds the objects in their
/// order, whatever it held before, and the other fields stay.
#[verifier::external_body]
fn put_list(
    object: &mut serde_json::Map<String, serde_json::Value>,
    key: &str,
    items: Vec<serde_json::Map<String, serde_json::Value>>,
)
    ensures
        fields_of(*final(object)) == fields_of(*old(object)).insert(
            key@,
            Field::List(all_fields(items@)),
        ),
{
    object.insert(key.to_owned(), serde_json::Value::from(items));
}

/// `serde_json::to_string_pretty` of an object. What comes of it depends on the fields
/// alone, since they are written in the order of their names; an error is taken by its
/// message.
#[verifier::external_body]
fn to_pretty(object: &serde_json::Map<String, serde_json::Value>) -> (r: Result<String, String>)
    ensures
        written(r) == pretty_of(fields_of(*object)),
{
    serde_json::to_string_pretty(object).map_err(|error| error.to_string())
}

/// `serde_json::to_string` of an object. It depends on the fields alone, since they are
/// written in the order of their names, and holds no line break: those in strings are
/// escaped, and none stand between the fields.
#[verifier::external_body]
fn to_json(object: &serde_json::Map<String, serde_json::Value>) -> (text: String)
    ensures
        text@ == json_of(fields_of(*object)),
        !text@.contains('\n'),
{
    serde_json::to_string(object).unwrap_or_default()
}

/// Whether usage may be recorded.
#[derive(Clone, Copy, Debug, PartialEq, Eq, Structural)]
pub struct Telemetry {
    pub consented: bool,
}

/// The line of an event.
pub open spec fn line_of(fields: Map<Seq<char>, Field>) -> Seq<char> {
    json_of(fields).push('\n')
}

/// The line that is written with consent; without it, none is.
pub open spec fn gated(consented: bool, fields: Map<Seq<char>, Field>) -> Option<Seq<char>> {
    if consented {
        Some(line_of(fields))
    } else {
        None
    }
}

/// Whether a text is exactly one line: its only line break is its end.
pub open spec fn is_line(text: Seq<char>) -> bool {
    text.len() > 0 && text.last() == '\n' && !text.drop_last().contains('\n')
}

/// Whether what is written, if anything is, is exactly one line.
pub open spec fn at_most_a_line(line: Option<String>) -> bool {
    line matches Some(line) ==> is_line(line@)
}

/// The line of an event, whether or not there is consent.
pub fn write_event(object: &serde_json::Map<String, serde_json::Value>) -> (line: String)
    ensures
        line@ == line_of(fields_of(*object)),
        is_line(line@),
{
    let mut line = to_json(object);
    let ghost json = line@;
    line.push('\n');
    assert(line@.drop_last() =~= json);
    line
}

/// The backend that was picked.
#[derive(Debug)]
pub struct BackendSelected {
    pub kind: String,
    pub provider: String,
    pub backend: String,
    pub device: String,
    pub threads: i32,
    pub decided_by: String,
    pub bench_ref: Option<String>,
}

/// A rewrite pass that ended.
#[derive(Debug)]
pub struct RewriteEnd {
    pub backend: String,
    pub device: String,
    pub wall_ms: u64,
    pub in_tokens: u64,
    pub out_tokens: u64,
    pub ok: bool,
}

/// Something that went wrong.
#[derive(Debug)]
pub struct ErrorEvent {
    pub kind: String,
    pub backend: String,
    pub message: String,
    pub stderr_tail: String,
}

/// Another way was taken.
#[derive(Debug)]
pub struct Fallback {
    pub kind: String,
    pub provider: String,
    pub reason: String,
    pub from: String,
    pub to: String,
}

/// The fields of the event that the app started.
pub open spec fn start_fields(unix_secs: u64, arch: Seq<char>) -> Map<Seq<char>, Field> {
    no_fields()
        .insert("event"@, Field::Text("app_start"@))
        .insert("ts"@, Field::Text(crate::text::decimal_of(unix_secs as nat)))
        .insert("app_version"@, Field::Text(APP_VERSION@))
        .insert("build"@, Field::Text(APP_VERSION@))
        .insert("arch"@, Field::Text(arch))
}

/// The fields of the event that a backend was picked.
pub open spec fn backend_fields(event: BackendSelected) -> Map<Seq<char>, Field> {
    no_fields()
        .insert("event"@, Field::Text("backend_selected"@))
        .insert("kind"@, Field::Text(event.kind@))
        .insert("provider"@, Field::Text(event.provider@))
        .insert("backend"@, Field::Text(event.backend@))
        .insert("device"@, Field::Text(event.device@))
        .insert("threads"@, Field::Number(event.threads as int))
        .insert("decided_by"@, Field::Text(event.decided_by@))
        .insert(
        "bench_ref"@,
        match event.bench_ref {
            Some(text) => Field::Text(text@),
            None => Field::Absent,
        },
    )
}

/// The fields of the event that a rewrite pass ended.
pub open spec fn rewrite_fields(event: RewriteEnd) -> Map<Seq<char>, Field> {
    no_fields()
        .insert("event"@, Field::Text("rewrite_end"@))
        .insert("backend"@, Field::Text(event.backend@))
        .insert("device"@, Field::Text(event.device@))
        .insert("wall_ms"@, Field::Number(event.wall_ms as int))
        .insert("in_tokens"@, Field::Number(event.in_tokens as int))
        .insert("out_tokens"@, Field::Number(event.out_tokens as int))
        .insert("ok"@, Field::Flag(event.ok))
}

/// The fields of the event that something went wrong.
pub open spec fn error_fields(event: ErrorEvent) -> Map<Seq<char>, Field> {
    no_fields()
        .insert("event"@, Field::Text("error"@))
        .insert("kind"@, Field::Text(event.kind@))
        .insert("backend"@, Field::Text(event.backend@))
        .insert("message"@, Field::Text(event.message@))
        .insert("stderr_tail"@, Field::Text(event.stderr_tail@))
}

/// The fields of the event that another way was taken.
pub open spec fn fallback_fields(event: Fallback) -> Map<Seq<char>, Field> {
    no_fields()
        .insert("event"@, Field::Text("fallback"@))
        .insert("kind"@, Field::Text(event.kind@))
        .insert("provider"@, Field::Text(event.provider@))
        .insert("reason"@, Field::Text(event.reason@))
        .insert("from"@, Field::Text(event.from@))
        .insert("to"@, Field::Text(event.to@))
}

/// The fields of the event that consent was given or taken back.
pub open spec fn consent_fields(state: bool, unix_secs: u64) -> Map<Seq<char>, Field> {
    no_fields()
        .insert("event"@, Field::Text("consent"@))
        .insert("state"@, Field::Flag(state))
        .insert("ts"@, Field::Text(crate::text::decimal_of(unix_secs as nat)))
}

impl Telemetry {
    /// Nothing is recorded until there is consent.
    pub fn new() -> (telemetry: Telemetry)
        ensures
            !telemetry.consented,
    {
        Telemetry { consented: false }
    }

    /// Gives consent, or takes it back.
    pub fn set_consent(&mut self, enabled: bool)
        ensures
            final(self).consented == enabled,
    {
        self.consented = enabled;
    }

    /// Whether there is consent.
    pub fn consent(&self) -> (r: bool)
        ensures
            r == self.consented,
    {
        self.consented
    }

    /// The line to write for an event: none without consent.
    pub fn log_event(&self, object: &serde_json::Map<String, serde_json::Value>) -> (line: Option<
        String,
    >)
        ensures
            crate::text::opt_text(line) == gated(self.consented, fields_of(*object)),
            at_most_a_line(line),
    {
        if self.consented {
            Some(write_event(object))
        } else {
            None
        }
    }

    /// The app started.
    pub fn app_start(&self, unix_secs: u64, arch: &str) -> (line: Option<String>)
        ensures
            crate::text::opt_text(line) == gated(self.consented, start_fields(unix_secs, arch@)),
            at_most_a_line(line),
    {
        let mut object = new_object();
        put_text(&mut object, "event", "app_start");
        put_text(&mut object, "ts", utc_timestamp(unix_secs).as_str());
        put_text(&mut object, "app_version", APP_VERSION);
        put_text(&mut object, "build", APP_VERSION);
        put_text(&mut object, "arch", arch);
        self.log_event(&object)
    }

    /// A backend was picked.
    pub fn backend_selected(&self, event: &BackendSelected) -> (line: Option<String>)
        ensures
            crate::text::opt_text(line) == gated(self.consented, backend_fields(*event)),
            at_most_a_line(line),
    {
        let mut object = new_object();
        put_text(&mut object, "event", "backend_selected");
        put_text(&mut object, "kind", event.kind.as_str());
        put_text(&mut object, "provider", event.provider.as_str());
        put_text(&mut object, "backend", event.backend.as_str());
        put_text(&mut object, "device", event.device.as_str());
        put_number(&mut object, "threads", event.threads);
        put_text(&mut object, "decided_by", event.decided_by.as_str());
        match &event.bench_ref {
            Some(text) => put_text(&mut object, "bench_ref", text.as_str()),
            None => put_absent(&mut object, "bench_ref"),
        }
        self.log_event(&object)
    }

    /// A rewrite pass ended.
    pub fn rewrite_end(&self, event: &RewriteEnd) -> (line: Option<String>)
        ensures
            crate::text::opt_text(line) == gated(self.consented, rewrite_fields(*event)),
            at_most_a_line(line),
    {
        let mut object = new_object();
        put_text(&mut object, "event", "rewrite_end");
        put_text(&mut object, "backend", event.backend.as_str());
        put_text(&mut object, "device", event.device.as_str());
        put_count(&mut object, "wall_ms", event.wall_ms);
        put_count(&mut object, "in_tokens", event.in_tokens);
        put_count(&mut object, "out_tokens", event.out_tokens);
        put_flag(&mut object, "ok", event.ok);
        self.log_event(&object)
    }

    /// Something went wrong.
    pub fn error(&self, event: &ErrorEvent) -> (line: Option<String>)
        ensures
            crate::text::opt_text(line) == gated(self.consented, error_fields(*event)),
            at_most_a_line(line),
    {
        let mut object = new_object();
        put_text(&mut object, "event", "error");
        put_text(&mut object, "kind", event.kind.as_str());
        put_text(&mut object, "backend", event.backend.as_str());
        put_text(&mut object, "message", event.message.as_str());
        put_text(&mut object, "stderr_tail", event.stderr_tail.as_str());
        self.log_event(&object)
    }

    /// Another way was taken.
    pub fn fallback(&self, event: &Fallback) -> (line: Option<String>)
        ensures
            crate::text::opt_text(line) == gated(self.consented, fallback_fields(*event)),
            at_most_a_line(line),
    {
        let mut object = new_object();
        put_text(&mut object, "event", "fallback");
        put_text(&mut object, "kind", event.kind.as_str());
        put_text(&mut object, "provider", event.provider.as_str());
        put_text(&mut object, "reason", event.reason.as_str());
        put_text(&mut object, "from", event.from.as_str());
        put_text(&mut object, "to", event.to.as_str());
        self.log_event(&object)
    }
}

/// The line that says that consent was given or taken back. It is written either way.
pub fn consent_event(state: bool, unix_secs: u64) -> (line: String)
    ensures
        line@ == line_of(consent_fields(state, unix_secs)),
        is_line(line@),
{
    let mut object = new_object();
    put_text(&mut object, "event", "consent");
    put_flag(&mut object, "state", state);
    put_text(&mut object, "ts", utc_timestamp(unix_secs).as_str());
    write_event(&object)
}

/// The machine, as far as it goes into statistics.
#[derive(Debug)]
pub struct DeviceFacts {
    pub os_name: String,
    pub os_version: String,
    pub os_build: String,
    pub arch: String,
    pub cpu_brand: String,
    pub cpu_threads: u32,
    /// The number of cores, where it is known.
    pub cpu_cores: Option<u32>,
    pub gpu_vendor: String,
    pub gpu_name: String,
}

/// The fields that describe a machine, but for its memory and its models.
pub open spec fn device_fields(device: DeviceFacts, models: Seq<ModelInfo>) -> Map<
    Seq<char>,
    Field,
> {
    no_fields()
        .insert("os_name"@, Field::Text(device.os_name@))
        .insert("os_version"@, Field::Text(device.os_version@))
        .insert("os_build"@, Field::Text(device.os_build@))
        .insert("arch"@, Field::Text(device.arch@))
        .insert("cpu_brand"@, Field::Text(device.cpu_brand@))
        .insert("cpu_threads"@, Field::Number(device.cpu_threads as int))
        .insert(
        "cpu_physical_cores"@,
        Field::Number(
            match device.cpu_cores {
                Some(cores) => cores as int,
                None => device.cpu_threads as int,
            },
        ),
    )
        .insert("power_state"@, Field::Text("unknown"@))
        .insert("gpu_vendor"@, Field::Text(device.gpu_vendor@))
        .insert("gpu_name"@, Field::Text(device.gpu_name@))
        .insert("gpu_vram_mb"@, Field::Number(0))
        .insert("gpu_driver"@, Field::Text("unknown"@))
        .insert("models"@, models_field(models))
}

/// The fields of what is on disk of a model.
pub open spec fn model_fields(model: ModelInfo) -> Map<Seq<char>, Field> {
    no_fields()
        .insert("id"@, Field::Text(model.id@))
        .insert("bytes"@, Field::Number(model.bytes as int))
        .insert("cached"@, Field::Flag(model.cached))
}

/// The models on disk, in order.
pub open spec fn models_field(models: Seq<ModelInfo>) -> Field {
    Field::List(models.map_values(|model: ModelInfo| model_fields(model)))
}

fn model_objects(models: &[ModelInfo]) -> (objects: Vec<serde_json::Map<String, serde_json::Value>>)
    ensures
        Field::List(all_fields(objects@)) == models_field(models@),
{
    let mut objects: Vec<serde_json::Map<String, serde_json::Value>> = Vec::new();
    let mut i: usize = 0;
    while i < models.len()
        invariant
            i <= models.len(),
            objects@.len() == i,
            forall|k: int|
                0 <= k < i ==> fields_of(#[trigger] objects@[k]) == model_fields(models@[k]),
        decreases models.len() - i,
    {
        let mut object = new_object();
        put_text(&mut object, "id", models[i].id);
        put_count(&mut object, "bytes", models[i].bytes);
        put_flag(&mut object, "cached", models[i].cached);
        objects.push(object);
        i += 1;
    }
    assert(all_fields(objects@) =~= models@.map_values(|model: ModelInfo| model_fields(model)));
    objects
}

/// The description of a machine, but for its memory.
pub fn device_profile_json(device: &DeviceFacts, models: &[ModelInfo]) -> (object: serde_json::Map<
    String,
    serde_json::Value,
>)
    ensures
        fields_of(object) == device_fields(*device, models@),
{
    let mut object = new_object();
    put_text(&mut object, "os_name", device.os_name.as_str());
    put_text(&mut object, "os_version", device.os_version.as_str());
    put_text(&mut object, "os_build", device.os_build.as_str());
    put_text(&mut object, "arch", device.arch.as_str());
    put_text(&mut object, "cpu_brand", device.cpu_brand.as_str());
    put_count(&mut object, "cpu_threads", device.cpu_threads as u64);
    let cores: u64 = match device.cpu_cores {
        Some(cores) => cores as u64,
        None => device.cpu_threads as u64,
    };
    put_count(&mut object, "cpu_physical_cores", cores);
    put_text(&mut object, "power_state", "unknown");
    put_text(&mut object, "gpu_vendor", device.gpu_vendor.as_str());
    put_text(&mut object, "gpu_name", device.gpu_name.as_str());
    put_count(&mut object, "gpu_vram_mb", 0);
    put_text(&mut object, "gpu_driver", "unknown");
    put_list(&mut object, "models", model_objects(models));
    object
}

/// The event that describes a machine, but for its memory.
pub fn device_profile(device: &DeviceFacts, models: &[ModelInfo]) -> (object: serde_json::Map<
    String,
    serde_json::Value,
>)
    ensures
        fields_of(object) == device_fields(*device, models@).insert(
            "event"@,
            Field::Text("device_profile"@),
        ),
{
    let mut object = device_profile_json(device, models);
    put_text(&mut object, "event", "device_profile");
    object
}

/// The event that a candidate was measured, but for its speed and its margin.
pub fn backend_bench(
    candidate: &str,
    provider: &str,
    device: &str,
    wall_ms: u64,
    accepted: bool,
    unix_secs: u64,
) -> (object: serde_json::Map<String, serde_json::Value>)
    ensures
        fields_of(object) == bench_fields(
            candidate@,
            provider@,
            device@,
            wall_ms,
            accepted,
            unix_secs,
        ),
{
    let mut object = new_object();
    put_text(&mut object, "event", "backend_bench");
    put_text(&mut object, "candidate", candidate);
    put_text(&mut object, "provider", provider);
    put_text(&mut object, "device", device);
    put_count(&mut object, "wall_ms", wall_ms);
    put_flag(&mut object, "accepted", accepted);
    put_text(&mut object, "ts", utc_timestamp(unix_secs).as_str());
    object
}

/// The event that a session ended, but for its length, its speed and its memory.
pub fn session_end(mode: &str, decode_wall_ms: u64, finalize_ms: u64, partials_advanced: u32) -> (
    object: serde_json::Map<String, serde_json::Value>)
    ensures
        fields_of(object) == session_fields(mode@, decode_wall_ms, finalize_ms, partials_advanced),
{
    let mut object = new_object();
    put_text(&mut object, "event", "session_end");
    put_text(&mut object, "mode", mode);
    put_count(&mut object, "decode_wall_ms", decode_wall_ms);
    put_count(&mut object, "finalize_ms", finalize_ms);
    put_count(&mut object, "partials_advanced", partials_advanced as u64);
    object
}

/// The event that a model was downloaded, but for the time it took.
pub fn model_download(model: &str, bytes: u64, source: &str) -> (object: serde_json::Map<
    String,
    serde_json::Value,
>)
    ensures
        fields_of(object) == download_fields(model@, bytes, source@),
{
    let mut object = new_object();
    put_text(&mut object, "event", "model_download");
    put_text(&mut object, "model", model);
    put_count(&mut object, "bytes", bytes);
    put_text(&mut object, "source", source);
    object
}

/// The settings that go into a bundle of logs.
pub fn config_summary_json(config: &AppConfig, vendor: &str) -> (object: serde_json::Map<
    String,
    serde_json::Value,
>)
    ensures
        fields_of(object) == summary_fields(config@, vendor@),
{
    let mut object = new_object();
    put_text(&mut object, "model", config.record_model.as_str());
    put_number(&mut object, "threads", config.backend_cache.asr.threads);
    put_text(&mut object, "provider", vendor);
    put_flag(&mut object, "rewrite_enabled", config.rewrite_record);
    object
}

/// Without consent, no event is recorded; with it, each is: as its JSON, with a line
/// break behind it. That this is exactly one line, `Telemetry::log_event` and the
/// functions of the events say of what they return.
pub proof fn nothing_is_recorded_without_consent(fields: Map<Seq<char>, Field>)
    ensures
        gated(false, fields) is None,
        gated(true, fields) == Some(json_of(fields).push('\n')),
{
}

/// The first line break from `k` on, or the length where there is none.
pub open spec fn break_of(text: Seq<char>, k: int) -> int
    decreases text.len() - k,
{
    if k >= text.len() || text[k] == '\n' {
        k
    } else {
        break_of(text, k + 1)
    }
}

/// The lines of a file, without their line breaks.
pub open spec fn lines_of(text: Seq<char>) -> Seq<Seq<char>>
    decreases text.len(),
{
    if text.len() == 0 {
        Seq::empty()
    } else {
        let end = break_of(text, 0);
        if end < 0 || end >= text.len() {
            seq![text]
        } else {
            seq![text.subrange(0, end)] + lines_of(text.subrange(end + 1, text.len() as int))
        }
    }
}

/// Whether every line of a file is finished.
pub open spec fn is_finished(text: Seq<char>) -> bool {
    text.len() == 0 || text.last() == '\n'
}

proof fn breaks_are_found(text: Seq<char>, k: int, end: int)
    requires
        0 <= k <= end < text.len(),
        text[end] == '\n',
    ensures
        k <= break_of(text, k) <= end,
        text[break_of(text, k)] == '\n',
        forall|i: int| k <= i < break_of(text, k) ==> #[trigger] text[i] != '\n',
    decreases end - k,
{
    if text[k] != '\n' {
        breaks_are_found(text, k + 1, end);
    }
}

proof fn breaks_stay(text: Seq<char>, more: Seq<char>, k: int)
    requires
        0 <= k <= text.len(),
        break_of(text, k) < text.len(),
    ensures
        break_of(text + more, k) == break_of(text, k),
    decreases text.len() - k,
{
    if k < text.len() && text[k] != '\n' {
        breaks_stay(text, more, k + 1);
    }
}

/// Appending the line of an event to a file of events leaves the lines that are there
/// and adds exactly one: the event without its line break.
pub proof fn an_event_adds_its_line(earlier: Seq<char>, line: Seq<char>)
    requires
        is_finished(earlier),
        is_line(line),
    ensures
        lines_of(earlier + line) == lines_of(earlier).push(line.drop_last()),
        is_finished(earlier + line),
    decreases earlier.len(),
{
    let all = earlier + line;
    if earlier.len() == 0 {
        breaks_are_found(line, 0, line.len() - 1);
        let end = break_of(line, 0);
        if end < line.len() - 1 {
            assert(line.drop_last()[end] == '\n');
        }
        assert(all =~= line);
        assert(line.subrange(0, end) =~= line.drop_last());
        assert(line.subrange(end + 1, line.len() as int) =~= Seq::empty());
        assert(lines_of(Seq::empty()) =~= Seq::empty());
        assert(lines_of(all) =~= lines_of(earlier).push(line.drop_last()));
    } else {
        breaks_are_found(earlier, 0, earlier.len() - 1);
        breaks_stay(earlier, line, 0);
        let end = break_of(earlier, 0);
        let rest = earlier.subrange(end + 1, earlier.len() as int);
        assert(all.subrange(0, end) =~= earlier.subrange(0, end));
        assert(all.subrange(end + 1, all.len() as int) =~= rest + line);
        an_event_adds_its_line(rest, line);
        assert(lines_of(all) =~= lines_of(earlier).push(line.drop_last()));
    }
}

/// The directory of the event files: the one that is named, or that of the app, given
/// the directory for roaming data.
pub open spec fn telemetry_path(named: Option<Seq<char>>, appdata: Option<Seq<char>>) -> Seq<char> {
    match named {
        Some(dir) => dir,
        None => crate::paths::path_in(app_logs(appdata), "telemetry"@),
    }
}

/// The directory of the logs of the app.
pub open spec fn app_logs(appdata: Option<Seq<char>>) -> Seq<char> {
    let base = match appdata {
        Some(base) => base,
        None => "."@,
    };
    crate::paths::path_in(crate::paths::path_in(base, "amanuensis"@), "logs"@)
}

fn own_logs(appdata: Option<&str>) -> (dir: String)
    ensures
        dir@ == app_logs(crate::text::opt_view(appdata)),
{
    let base = match appdata {
        Some(base) => base,
        None => ".",
    };
    join(join(base, "amanuensis").as_str(), "logs")
}

/// The directory of the event files.
pub fn telemetry_dir(named: Option<&str>, appdata: Option<&str>) -> (dir: String)
    ensures
        dir@ == telemetry_path(crate::text::opt_view(named), crate::text::opt_view(appdata)),
{
    match named {
        Some(dir) => owned(dir),
        None => join(own_logs(appdata).as_str(), "telemetry"),
    }
}

/// The directory of the logs: next to the event files where their directory is named
/// and has a `parent`, or that of the app.
pub fn logs_dir(named: Option<&str>, parent: Option<&str>, appdata: Option<&str>) -> (dir: String)
    ensures
        dir@ == logs_path(
            crate::text::opt_view(named),
            crate::text::opt_view(parent),
            crate::text::opt_view(appdata),
        ),
{
    match named {
        Some(named) => match parent {
            Some(parent) => if parent.unicode_len() > 0 {
                owned(parent)
            } else {
                owned(named)
            },
            None => owned(named),
        },
        None => own_logs(appdata),
    }
}

/// The seconds since the epoch as text.
pub fn utc_timestamp(unix_secs: u64) -> (text: String)
    ensures
        text@ == crate::text::decimal_of(unix_secs as nat),
{
    decimal(unix_secs)
}

/// Whether a year has a leap day.
pub open spec fn leap(y: nat) -> bool {
    (y % 4 == 0 && y % 100 != 0) || y % 400 == 0
}

/// Whether a year has a leap day.
pub fn is_leap(y: u64) -> (r: bool)
    ensures
        r == leap(y as nat),
{
    (y % 4 == 0 && y % 100 != 0) || y % 400 == 0
}

/// The days of a year.
pub open spec fn year_len(y: nat) -> nat {
    if leap(y) {
        366
    } else {
        365
    }
}

/// The days of a month, counted from 1.
pub open spec fn month_len(y: nat, m: nat) -> nat {
    if m == 2 {
        if leap(y) {
            29
        } else {
            28
        }
    } else if m == 4 || m == 6 || m == 9 || m == 11 {
        30
    } else {
        31
    }
}

fn days_in_month(y: u64, m: u64) -> (days: u64)
    ensures
        days == month_len(y as nat, m as nat),
{
    if m == 2 {
        if is_leap(y) {
            29
        } else {
            28
        }
    } else if m == 4 || m == 6 || m == 9 || m == 11 {
        30
    } else {
        31
    }
}

/// The year and the day in it, `days` days after the start of the year `y`.
pub open spec fn year_after(y: nat, days: nat) -> (nat, nat)
    decreases days,
{
    if days < year_len(y) {
        (y, days)
    } else {
        year_after(y + 1, (days - year_len(y)) as nat)
    }
}

/// The month and the day in it, `days` days after the start of the month `m` of the
/// year `y`.
pub open spec fn month_after(y: nat, m: nat, days: nat) -> (nat, nat)
    decreases days,
{
    if days < month_len(y, m) {
        (m, days)
    } else {
        month_after(y, m + 1, (days - month_len(y, m)) as nat)
    }
}

/// Year, month and day of a day that is `days` days after the start of 1970.
pub open spec fn date_of(days: nat) -> (nat, nat, nat) {
    let (y, in_year) = year_after(1970, days);
    let (m, in_month) = month_after(y, 1, in_year);
    (y, m, in_month + 1)
}

/// A number with at least four digits.
pub open spec fn four_digits_of(n: nat) -> Seq<char> {
    if n < 10 {
        "000"@ + crate::text::decimal_of(n)
    } else if n < 100 {
        "00"@ + crate::text::decimal_of(n)
    } else if n < 1000 {
        "0"@ + crate::text::decimal_of(n)
    } else {
        crate::text::decimal_of(n)
    }
}

fn four_digits(n: u64) -> (text: String)
    ensures
        text@ == four_digits_of(n as nat),
{
    let digits = decimal(n);
    if n < 10 {
        joined("000", digits.as_str())
    } else if n < 100 {
        joined("00", digits.as_str())
    } else if n < 1000 {
        joined("0", digits.as_str())
    } else {
        digits
    }
}

/// The date of a moment as text.
pub open spec fn date_text(unix_secs: u64) -> Seq<char> {
    let (y, m, d) = date_of((unix_secs / 86400) as nat);
    four_digits_of(y) + "-"@ + crate::text::two_digits_of(m) + "-"@
        + crate::text::two_digits_of(d)
}

/// The days of the years from 1970 to the start of the year `y`.
pub open spec fn days_before(y: nat) -> nat
    decreases y,
{
    if y <= 1970 {
        0
    } else {
        days_before((y - 1) as nat) + year_len((y - 1) as nat)
    }
}

/// The days of a year before the month `m`.
pub open spec fn days_before_month(y: nat, m: nat) -> nat
    decreases m,
{
    if m <= 1 {
        0
    } else {
        days_before_month(y, (m - 1) as nat) + month_len(y, (m - 1) as nat)
    }
}

proof fn years_add_up(y: nat, days: nat)
    requires
        y >= 1970,
    ensures
        ({
            let (year, rest) = year_after(y, days);
            &&& year >= y
            &&& rest < year_len(year)
            &&& days_before(y) + days == days_before(year) + rest
        }),
    decreases days,
{
    if days >= year_len(y) {
        years_add_up(y + 1, (days - year_len(y)) as nat);
        assert(days_before(y + 1) == days_before(y) + year_len(y));
    }
}

proof fn year_of_months(y: nat)
    ensures
        days_before_month(y, 13) == year_len(y),
{
    reveal_with_fuel(days_before_month, 14);
}

proof fn months_add_up(y: nat, m: nat, days: nat)
    requires
        1 <= m <= 12,
        days_before_month(y, m) + days < year_len(y),
    ensures
        ({
            let (month, rest) = month_after(y, m, days);
            &&& m <= month <= 12
            &&& rest < month_len(y, month)
            &&& days_before_month(y, m) + days == days_before_month(y, month) + rest
        }),
    decreases days,
{
    if days >= month_len(y, m) {
        assert(days_before_month(y, m + 1) == days_before_month(y, m) + month_len(y, m));
        if m == 12 {
            year_of_months(y);
        }
        months_add_up(y, m + 1, (days - month_len(y, m)) as nat);
    }
}

/// A date is a day of the calendar, and the days up to it add up to the days since the
/// start of 1970.
pub proof fn dates_add_up(days: nat)
    ensures
        ({
            let (y, m, d) = date_of(days);
            &&& y >= 1970
            &&& 1 <= m <= 12
            &&& 1 <= d <= month_len(y, m)
            &&& days_before(y) + days_before_month(y, m) + (d - 1) == days
        }),
{
    years_add_up(1970, days);
    let (y, in_year) = year_after(1970, days);
    months_add_up(y, 1, in_year);
}

/// Different days have different dates.
pub proof fn dates_are_different(a: nat, b: nat)
    requires
        date_of(a) == date_of(b),
    ensures
        a == b,
{
    dates_add_up(a);
    dates_add_up(b);
}

/// The date of a moment, given in seconds since the epoch.
pub fn now_utc(unix_secs: u64) -> (text: String)
    ensures
        text@ == date_text(unix_secs),
{
    let days: u64 = unix_secs / 86400;
    let mut y: u64 = 1970;
    let mut rest: u64 = days;
    loop
        invariant_except_break
            year_after(1970, days as nat) == year_after(y as nat, rest as nat),
            y + rest <= 1970 + days,
            days == unix_secs / 86400,
        ensures
            year_after(1970, days as nat) == (y as nat, rest as nat),
            rest < year_len(y as nat),
        decreases rest,
    {
        let len: u64 = if is_leap(y) {
            366
        } else {
            365
        };
        if rest < len {
            break;
        }
        rest -= len;
        y += 1;
    }
    let ghost in_year = rest as nat;
    proof {
        months_add_up(y as nat, 1, in_year);
    }
    let mut m: u64 = 1;
    loop
        invariant_except_break
            1 <= m <= 12,
            month_after(y as nat, 1, in_year) == month_after(y as nat, m as nat, rest as nat),
            month_after(y as nat, 1, in_year).0 <= 12,
        ensures
            month_after(y as nat, 1, in_year) == (m as nat, rest as nat),
            rest < 31,
        decreases rest,
    {
        let len: u64 = days_in_month(y, m);
        if rest < len {
            break;
        }
        proof {
            months_go_on(y as nat, (m + 1) as nat, (rest - len) as nat);
        }
        rest -= len;
        m += 1;
    }
    let mut text = four_digits(y);
    text.push_str("-");
    text.push_str(two_digits(m).as_str());
    text.push_str("-");
    text.push_str(two_digits(rest + 1).as_str());
    text
}

proof fn months_go_on(y: nat, m: nat, days: nat)
    ensures
        month_after(y, m, days).0 >= m,
    decreases days,
{
    if days >= month_len(y, m) {
        months_go_on(y, m + 1, (days - month_len(y, m)) as nat);
    }
}

/// Date and time of a moment as text.
pub fn iso_timestamp(unix_secs: u64) -> (text: String)
    ensures
        text@ == timestamp_text(unix_secs),
{
    let time: u64 = unix_secs % 86400;
    let mut text = now_utc(unix_secs);
    text.push_str("T");
    text.push_str(two_digits(time / 3600).as_str());
    text.push_str(":");
    text.push_str(two_digits(time % 3600 / 60).as_str());
    text.push_str(":");
    text.push_str(two_digits(time % 60).as_str());
    text.push_str("Z");
    text
}

/// The name of the file that the events of a moment go to.
pub fn event_file(unix_secs: u64) -> (name: String)
    ensures
        name@ == date_text(unix_secs) + ".jsonl"@,
{
    joined(now_utc(unix_secs).as_str(), ".jsonl")
}

/// Name, version and build of the system, as far as the registry knows them.
pub fn os_info(name: Option<String>, version: Option<String>, build: Option<String>) -> (r: (
    String,
    String,
    String,
))
    ensures
        r.0@ == (match name {
            Some(name) => name@,
            None => "Windows"@,
        }),
        r.1@ == (match version {
            Some(version) => version@,
            None => Seq::empty(),
        }),
        r.2@ == (match build {
            Some(build) => build@,
            None => Seq::empty(),
        }),
{
    let name = match name {
        Some(name) => name,
        None => owned("Windows"),
    };
    let version = match version {
        Some(version) => version,
        None => String::new(),
    };
    let build = match build {
        Some(build) => build,
        None => String::new(),
    };
    (name, version, build)
}

/// A model on disk.
#[derive(Debug)]
pub struct ModelInfo {
    pub id: &'static str,
    pub bytes: u64,
    pub cached: bool,
}

/// What is on disk of the models: whether the directory of each is there, and its
/// size. Where the directory for roaming data is not known, nothing is said.
pub fn gather_model_info(known: bool, nemotron: Option<u64>, moonshine: Option<u64>) -> (models: Vec<
    ModelInfo,
>)
    ensures
        models@.len() == (if known {
            2int
        } else {
            0
        }),
        known ==> {
            &&& models@[0].id@ == "nemotron"@
            &&& models@[0].cached == (nemotron is Some)
            &&& models@[0].bytes == (match nemotron {
                Some(bytes) => bytes,
                None => 0,
            })
            &&& models@[1].id@ == "moonshine"@
            &&& models@[1].cached == (moonshine is Some)
            &&& models@[1].bytes == (match moonshine {
                Some(bytes) => bytes,
                None => 0,
            })
        },
{
    let mut models: Vec<ModelInfo> = Vec::new();
    if known {
        models.push(
            ModelInfo {
                id: "nemotron",
                bytes: match nemotron {
                    Some(bytes) => bytes,
                    None => 0,
                },
                cached: nemotron.is_some(),
            },
        );
        models.push(
            ModelInfo {
                id: "moonshine",
                bytes: match moonshine {
                    Some(bytes) => bytes,
                    None => 0,
                },
                cached: moonshine.is_some(),
            },
        );
    }
    models
}

/// Why logs could not be bundled.
#[derive(Clone, Copy, Debug, PartialEq, Eq, Structural)]
pub enum ExportFailure {
    Staging,
    DeviceJson,
    DeviceFile,
    ConfigJson,
    ConfigFile,
    Shell,
    Archive,
}

impl ExportFailure {
    /// The words before what the system says.
    pub open spec fn wording(self) -> Seq<char> {
        match self {
            ExportFailure::Staging => "creating staging dir: "@,
            ExportFailure::DeviceJson => "serializing device info: "@,
            ExportFailure::DeviceFile => "writing device-info.json: "@,
            ExportFailure::ConfigJson => "serializing config summary: "@,
            ExportFailure::ConfigFile => "writing config-summary.json: "@,
            ExportFailure::Shell => "running powershell: "@,
            ExportFailure::Archive => "Compress-Archive failed: "@,
        }
    }

    /// The message of the failure. `detail` is what the system says.
    pub fn text(self, detail: &str) -> (text: String)
        ensures
            text@ == self.wording() + detail@,
    {
        let words = match self {
            ExportFailure::Staging => "creating staging dir: ",
            ExportFailure::DeviceJson => "serializing device info: ",
            ExportFailure::DeviceFile => "writing device-info.json: ",
            ExportFailure::ConfigJson => "serializing config summary: ",
            ExportFailure::ConfigFile => "writing config-summary.json: ",
            ExportFailure::Shell => "running powershell: ",
            ExportFailure::Archive => "Compress-Archive failed: ",
        };
        joined(words, detail)
    }
}

/// What is written to a file of the bundle: the JSON, or the message of the failure.
pub open spec fn bundled_json(json: Result<Seq<char>, Seq<char>>, failure: ExportFailure) -> Result<
    Seq<char>,
    Seq<char>,
> {
    match json {
        Ok(text) => Ok(text),
        Err(detail) => Err(failure.wording() + detail),
    }
}

/// What is written to a file of the bundle, given what came of making the JSON.
pub fn json_or_failure(json: Result<String, String>, failure: ExportFailure) -> (r: Result<
    String,
    String,
>)
    ensures
        written(r) == bundled_json(written(json), failure),
{
    match json {
        Ok(text) => Ok(text),
        Err(detail) => Err(failure.text(detail.as_str())),
    }
}

/// An object as it is written to a file of the bundle.
pub fn pretty_json(
    object: &serde_json::Map<String, serde_json::Value>,
    failure: ExportFailure,
) -> (r: Result<String, String>)
    ensures
        written(r) == bundled_json(pretty_of(fields_of(*object)), failure),
{
    json_or_failure(to_pretty(object), failure)
}

/// Whether a file holds events: its name has something before `.jsonl`.
pub open spec fn holds_events(name: Seq<char>) -> bool {
    name.len() > 6 && name.subrange(name.len() - 6, name.len() as int) == ".jsonl"@
}

/// Whether a file holds events.
pub fn is_event_file(name: &str) -> (r: bool)
    ensures
        r == holds_events(name@),
{
    let chars = chars_of(name);
    let n: usize = chars.len();
    if n <= 6 {
        return false;
    }
    proof {
        reveal_strlit(".jsonl");
    }
    let r = chars[n - 6] == '.' && chars[n - 5] == 'j' && chars[n - 4] == 's' && chars[n - 3]
        == 'o' && chars[n - 2] == 'n' && chars[n - 1] == 'l';
    let ghost end = name@.subrange(name@.len() - 6, name@.len() as int);
    if r {
        assert(end =~= ".jsonl"@);
    } else {
        assert(end[0] == chars@[n - 6]);
        assert(end[1] == chars@[n - 5]);
        assert(end[2] == chars@[n - 4]);
        assert(end[3] == chars@[n - 3]);
        assert(end[4] == chars@[n - 2]);
        assert(end[5] == chars@[n - 1]);
        assert(end != ".jsonl"@);
    }
    r
}

/// The names of the files that hold events, in order.
pub open spec fn event_files(names: Seq<String>) -> Seq<Seq<char>>
    decreases names.len(),
{
    if names.len() == 0 {
        Seq::empty()
    } else if holds_events(names.last()@) {
        event_files(names.drop_last()).push(names.last()@)
    } else {
        event_files(names.drop_last())
    }
}

/// The files that go into a bundle: the log if there is one, and those that hold
/// events, in the order in which the system lists them.
pub fn bundled_files(has_log: bool, names: &[String]) -> (files: Vec<String>)
    ensures
        crate::text::texts(files@) == (if has_log {
            seq!["amanuensis.log"@]
        } else {
            Seq::empty()
        }) + event_files(names@),
{
    let mut files: Vec<String> = Vec::new();
    if has_log {
        files.push(owned("amanuensis.log"));
    }
    let ghost lead = crate::text::texts(files@);
    let mut i: usize = 0;
    assert(lead + event_files(names@.subrange(0, 0)) =~= lead);
    assert(lead =~= (if has_log {
        seq!["amanuensis.log"@]
    } else {
        Seq::empty()
    }));
    while i < names.len()
        invariant
            i <= names@.len(),
            crate::text::texts(files@) == lead + event_files(names@.subrange(0, i as int)),
        decreases names@.len() - i,
    {
        assert(names@.subrange(0, i + 1).drop_last() =~= names@.subrange(0, i as int));
        let ghost before = files@;
        if is_event_file(names[i].as_str()) {
            files.push(names[i].clone());
            assert(crate::text::texts(files@) =~= crate::text::texts(before).push(
                names@[i as int]@,
            ));
        }
        i += 1;
        assert(crate::text::texts(files@) =~= lead + event_files(names@.subrange(0, i as int)));
    }
    assert(names@.subrange(0, i as int) =~= names@);
    files
}

/// The name of a bundle that is made at a moment.
pub fn bundle_name(unix_secs: u64) -> (name: String)
    ensures
        name@ == "telemetry-manuensis-"@ + APP_VERSION@ + "-"@ + crate::text::decimal_of(
            unix_secs as nat,
        ) + ".zip"@,
{
    let mut name = joined("telemetry-manuensis-", APP_VERSION);
    name.push_str("-");
    name.push_str(utc_timestamp(unix_secs).as_str());
    name.push_str(".zip");
    name
}

/// How bundling went, after the shell ran: the bundle, or why there is none.
pub fn export_logs(success: bool, bundle: String, stderr: &str) -> (r: Result<String, String>)
    ensures
        match r {
            Ok(path) => success && path == bundle,
            Err(text) => !success && text@ == ExportFailure::Archive.wording() + stderr@,
        },
{
    if success {
        Ok(bundle)
    } else {
        Err(ExportFailure::Archive.text(stderr))
    }
}

/// The argument that has a file shown in its directory.
pub fn select_argument(path: &str) -> (argument: String)
    ensures
        argument@ == "/select,"@ + path@,
{
    joined("/select,", path)
}

/// The fields of the event on a measured backend.
pub open spec fn bench_fields(
    candidate: Seq<char>,
    provider: Seq<char>,
    device: Seq<char>,
    wall_ms: u64,
    accepted: bool,
    unix_secs: u64,
) -> Map<Seq<char>, Field> {
    no_fields()
        .insert("event"@, Field::Text("backend_bench"@))
        .insert("candidate"@, Field::Text(candidate))
        .insert("provider"@, Field::Text(provider))
        .insert("device"@, Field::Text(device))
        .insert("wall_ms"@, Field::Number(wall_ms as int))
        .insert("accepted"@, Field::Flag(accepted))
        .insert("ts"@, Field::Text(crate::text::decimal_of(unix_secs as nat)))
}

/// The fields of the event on the end of a recording.
pub open spec fn session_fields(
    mode: Seq<char>,
    decode_wall_ms: u64,
    finalize_ms: u64,
    partials_advanced: u32,
) -> Map<Seq<char>, Field> {
    no_fields()
        .insert("event"@, Field::Text("session_end"@))
        .insert("mode"@, Field::Text(mode))
        .insert("decode_wall_ms"@, Field::Number(decode_wall_ms as int))
        .insert("finalize_ms"@, Field::Number(finalize_ms as int))
        .insert("partials_advanced"@, Field::Number(partials_advanced as int))
}

/// The fields of the event on a download.
pub open spec fn download_fields(model: Seq<char>, bytes: u64, source: Seq<char>) -> Map<
    Seq<char>,
    Field,
> {
    no_fields()
        .insert("event"@, Field::Text("model_download"@))
        .insert("model"@, Field::Text(model))
        .insert("bytes"@, Field::Number(bytes as int))
        .insert("source"@, Field::Text(source))
}

/// The fields of the summary of the settings.
pub open spec fn summary_fields(config: crate::config::ConfigView, vendor: Seq<char>) -> Map<
    Seq<char>,
    Field,
> {
    no_fields()
        .insert("model"@, Field::Text(config.record_model))
        .insert("threads"@, Field::Number(config.backend_cache.asr.threads as int))
        .insert("provider"@, Field::Text(vendor))
        .insert("rewrite_enabled"@, Field::Flag(config.rewrite_record))
}

/// Where the log lies: above the folder that was named, or with the app's own.
pub open spec fn logs_path(
    named: Option<Seq<char>>,
    parent: Option<Seq<char>>,
    appdata: Option<Seq<char>>,
) -> Seq<char> {
    match named {
        Some(named) => match parent {
            Some(parent) if parent.len() > 0 => parent,
            _ => named,
        },
        None => app_logs(appdata),
    }
}

/// A moment as it is written in a time stamp.
pub open spec fn timestamp_text(unix_secs: u64) -> Seq<char> {
    date_text(unix_secs) + "T"@ + crate::text::two_digits_of((unix_secs % 86400 / 3600) as nat)
        + ":"@ + crate::text::two_digits_of((unix_secs % 86400 % 3600 / 60) as nat) + ":"@
        + crate::text::two_digits_of((unix_secs % 86400 % 60) as nat) + "Z"@
}

/// With consent an event is recorded, whatever it holds, as one line; without it none is.
pub proof fn consent_decides(consented: bool, fields: Map<Seq<char>, Field>)
    ensures
        gated(consented, fields) is Some <==> consented,
        consented ==> gated(consented, fields)->0.last() == '\n' && gated(
            consented,
            fields,
        )->0.drop_last() == json_of(fields),
{
    assert(json_of(fields).push('\n').drop_last() == json_of(fields));
}

/// The event on a start holds when, which version and on what machine, and no more.
pub proof fn starts_are_recorded(unix_secs: u64, arch: Seq<char>)
    ensures
        ({
            let fields = start_fields(unix_secs, arch);
            &&& fields["event"@] == Field::Text("app_start"@)
            &&& fields["ts"@] == Field::Text(crate::text::decimal_of(unix_secs as nat))
            &&& fields["app_version"@] == Field::Text(APP_VERSION@)
            &&& fields["build"@] == Field::Text(APP_VERSION@)
            &&& fields["arch"@] == Field::Text(arch)
            &&& fields.dom() == set!["event"@, "ts"@, "app_version"@, "build"@, "arch"@]
        }),
{
    reveal_strlit("event");
    reveal_strlit("ts");
    reveal_strlit("app_version");
    reveal_strlit("build");
    reveal_strlit("arch");
    assert("event"@.len() != "ts"@.len());
    assert("event"@.len() != "app_version"@.len());
    assert("event"@[0] != "build"@[0]);
    assert("event"@.len() != "arch"@.len());
    assert("ts"@.len() != "app_version"@.len());
    assert("ts"@.len() != "build"@.len());
    assert("ts"@.len() != "arch"@.len());
    assert("app_version"@.len() != "build"@.len());
    assert("app_version"@.len() != "arch"@.len());
    assert("build"@.len() != "arch"@.len());
    assert(start_fields(unix_secs, arch).dom() =~= set!["event"@, "ts"@, "app_version"@, "build"@, "arch"@]);
}

/// The event on a backend holds what was picked and who picked it, and no more.
pub proof fn backends_are_recorded(event: BackendSelected)
    ensures
        ({
            let fields = backend_fields(event);
            &&& fields["event"@] == Field::Text("backend_selected"@)
            &&& fields["kind"@] == Field::Text(event.kind@)
            &&& fields["provider"@] == Field::Text(event.provider@)
            &&& fields["backend"@] == Field::Text(event.backend@)
            &&& fields["device"@] == Field::Text(event.device@)
            &&& fields["threads"@] == Field::Number(event.threads as int)
            &&& fields["decided_by"@] == Field::Text(event.decided_by@)
            &&& fields["bench_ref"@] == (if event.bench_ref is Some {
                Field::Text(event.bench_ref->0@)
            } else {
                Field::Absent
            })
            &&& fields.dom() == set!["event"@, "kind"@, "provider"@, "backend"@, "device"@, "threads"@, "decided_by"@, "bench_ref"@]
        }),
{
    reveal_strlit("event");
    reveal_strlit("kind");
    reveal_strlit("provider");
    reveal_strlit("backend");
    reveal_strlit("device");
    reveal_strlit("threads");
    reveal_strlit("decided_by");
    reveal_strlit("bench_ref");
    assert("event"@.len() != "kind"@.len());
    assert("event"@.len() != "provider"@.len());
    assert("event"@.len() != "backend"@.len());
    assert("event"@.len() != "device"@.len());
    assert("event"@.len() != "threads"@.len());
    assert("event"@.len() != "decided_by"@.len());
    assert("event"@.len() != "bench_ref"@.len());
    assert("kind"@.len() != "provider"@.len());
    assert("kind"@.len() != "backend"@.len());
    assert("kind"@.len() != "device"@.len());
    assert("kind"@.len() != "threads"@.len());
    assert("kind"@.len() != "decided_by"@.len());
    assert("kind"@.len() != "bench_ref"@.len());
    assert("provider"@.len() != "backend"@.len());
    assert("provider"@.len() != "device"@.len());
    assert("provider"@.len() != "threads"@.len());
    assert("provider"@.len() != "decided_by"@.len());
    assert("provider"@.len() != "bench_ref"@.len());
    assert("backend"@.len() != "device"@.len());
    assert("backend"@[0] != "threads"@[0]);
    assert("backend"@.len() != "decided_by"@.len());
    assert("backend"@.len() != "bench_ref"@.len());
    assert("device"@.len() != "threads"@.len());
    assert("device"@.len() != "decided_by"@.len());
    assert("device"@.len() != "bench_ref"@.len());
    assert("threads"@.len() != "decided_by"@.len());
    assert("threads"@.len() != "bench_ref"@.len());
    assert("decided_by"@.len() != "bench_ref"@.len());
    assert(backend_fields(event).dom() =~= set!["event"@, "kind"@, "provider"@, "backend"@, "device"@, "threads"@, "decided_by"@, "bench_ref"@]);
}

/// The event on a rewrite holds its figures and whether it went well, and no word of the text.
pub proof fn rewrites_are_recorded(event: RewriteEnd)
    ensures
        ({
            let fields = rewrite_fields(event);
            &&& fields["event"@] == Field::Text("rewrite_end"@)
            &&& fields["backend"@] == Field::Text(event.backend@)
            &&& fields["device"@] == Field::Text(event.device@)
            &&& fields["wall_ms"@] == Field::Number(event.wall_ms as int)
            &&& fields["in_tokens"@] == Field::Number(event.in_tokens as int)
            &&& fields["out_tokens"@] == Field::Number(event.out_tokens as int)
            &&& fields["ok"@] == Field::Flag(event.ok)
            &&& fields.dom() == set!["event"@, "backend"@, "device"@, "wall_ms"@, "in_tokens"@, "out_tokens"@, "ok"@]
        }),
{
    reveal_strlit("event");
    reveal_strlit("backend");
    reveal_strlit("device");
    reveal_strlit("wall_ms");
    reveal_strlit("in_tokens");
    reveal_strlit("out_tokens");
    reveal_strlit("ok");
    assert("event"@.len() != "backend"@.len());
    assert("event"@.len() != "device"@.len());
    assert("event"@.len() != "wall_ms"@.len());
    assert("event"@.len() != "in_tokens"@.len());
    assert("event"@.len() != "out_tokens"@.len());
    assert("event"@.len() != "ok"@.len());
    assert("backend"@.len() != "device"@.len());
    assert("backend"@[0] != "wall_ms"@[0]);
    assert("backend"@.len() != "in_tokens"@.len());
    assert("backend"@.len() != "out_tokens"@.len());
    assert("backend"@.len() != "ok"@.len());
    assert("device"@.len() != "wall_ms"@.len());
    assert("device"@.len() != "in_tokens"@.len());
    assert("device"@.len() != "out_tokens"@.len());
    assert("device"@.len() != "ok"@.len());
    assert("wall_ms"@.len() != "in_tokens"@.len());
    assert("wall_ms"@.len() != "out_tokens"@.len());
    assert("wall_ms"@.len() != "ok"@.len());
    assert("in_tokens"@.len() != "out_tokens"@.len());
    assert("in_tokens"@.len() != "ok"@.len());
    assert("out_tokens"@.len() != "ok"@.len());
    assert(rewrite_fields(event).dom() =~= set!["event"@, "backend"@, "device"@, "wall_ms"@, "in_tokens"@, "out_tokens"@, "ok"@]);
}

/// The event on an error holds what failed and what was said of it, and no more.
pub proof fn errors_are_recorded(event: ErrorEvent)
    ensures
        ({
            let fields = error_fields(event);
            &&& fields["event"@] == Field::Text("error"@)
            &&& fields["kind"@] == Field::Text(event.kind@)
            &&& fields["backend"@] == Field::Text(event.backend@)
            &&& fields["message"@] == Field::Text(event.message@)
            &&& fields["stderr_tail"@] == Field::Text(event.stderr_tail@)
            &&& fields.dom() == set!["event"@, "kind"@, "backend"@, "message"@, "stderr_tail"@]
        }),
{
    reveal_strlit("event");
    reveal_strlit("kind");
    reveal_strlit("backend");
    reveal_strlit("message");
    reveal_strlit("stderr_tail");
    assert("event"@.len() != "kind"@.len());
    assert("event"@.len() != "backend"@.len());
    assert("event"@.len() != "message"@.len());
    assert("event"@.len() != "stderr_tail"@.len());
    assert("kind"@.len() != "backend"@.len());
    assert("kind"@.len() != "message"@.len());
    assert("kind"@.len() != "stderr_tail"@.len());
    assert("backend"@[0] != "message"@[0]);
    assert("backend"@.len() != "stderr_tail"@.len());
    assert("message"@.len() != "stderr_tail"@.len());
    assert(error_fields(event).dom() =~= set!["event"@, "kind"@, "backend"@, "message"@, "stderr_tail"@]);
}

/// The event on a fallback holds from what to what and why, and no more.
pub proof fn fallbacks_are_recorded(event: Fallback)
    ensures
        ({
            let fields = fallback_fields(event);
            &&& fields["event"@] == Field::Text("fallback"@)
            &&& fields["kind"@] == Field::Text(event.kind@)
            &&& fields["provider"@] == Field::Text(event.provider@)
            &&& fields["reason"@] == Field::Text(event.reason@)
            &&& fields["from"@] == Field::Text(event.from@)
            &&& fields["to"@] == Field::Text(event.to@)
            &&& fields.dom() == set!["event"@, "kind"@, "provider"@, "reason"@, "from"@, "to"@]
        }),
{
    reveal_strlit("event");
    reveal_strlit("kind");
    reveal_strlit("provider");
    reveal_strlit("reason");
    reveal_strlit("from");
    reveal_strlit("to");
    assert("event"@.len() != "kind"@.len());
    assert("event"@.len() != "provider"@.len());
    assert("event"@.len() != "reason"@.len());
    assert("event"@.len() != "from"@.len());
    assert("event"@.len() != "to"@.len());
    assert("kind"@.len() != "provider"@.len());
    assert("kind"@.len() != "reason"@.len());
    assert("kind"@[0] != "from"@[0]);
    assert("kind"@.len() != "to"@.len());
    assert("provider"@.len() != "reason"@.len());
    assert("provider"@.len() != "from"@.len());
    assert("provider"@.len() != "to"@.len());
    assert("reason"@.len() != "from"@.len());
    assert("reason"@.len() != "to"@.len());
    assert("from"@.len() != "to"@.len());
    assert(fallback_fields(event).dom() =~= set!["event"@, "kind"@, "provider"@, "reason"@, "from"@, "to"@]);
}

/// The event on consent holds what was chosen and when, and no more.
pub proof fn consent_is_recorded(state: bool, unix_secs: u64)
    ensures
        ({
            let fields = consent_fields(state, unix_secs);
            &&& fields["event"@] == Field::Text("consent"@)
            &&& fields["state"@] == Field::Flag(state)
            &&& fields["ts"@] == Field::Text(crate::text::decimal_of(unix_secs as nat))
            &&& fields.dom() == set!["event"@, "state"@, "ts"@]
        }),
{
    reveal_strlit("event");
    reveal_strlit("state");
    reveal_strlit("ts");
    assert("event"@[0] != "state"@[0]);
    assert("event"@.len() != "ts"@.len());
    assert("state"@.len() != "ts"@.len());
    assert(consent_fields(state, unix_secs).dom() =~= set!["event"@, "state"@, "ts"@]);
}

/// The event on a measured backend holds which it was, how long it took and whether it
/// counts, and no more.
pub proof fn measurements_are_recorded(
    candidate: Seq<char>,
    provider: Seq<char>,
    device: Seq<char>,
    wall_ms: u64,
    accepted: bool,
    unix_secs: u64,
)
    ensures
        ({
            let fields = bench_fields(candidate, provider, device, wall_ms, accepted, unix_secs);
            &&& fields["event"@] == Field::Text("backend_bench"@)
            &&& fields["candidate"@] == Field::Text(candidate)
            &&& fields["provider"@] == Field::Text(provider)
            &&& fields["device"@] == Field::Text(device)
            &&& fields["wall_ms"@] == Field::Number(wall_ms as int)
            &&& fields["accepted"@] == Field::Flag(accepted)
            &&& fields["ts"@] == Field::Text(crate::text::decimal_of(unix_secs as nat))
            &&& fields.dom() == set!["event"@, "candidate"@, "provider"@, "device"@, "wall_ms"@, "accepted"@, "ts"@]
        }),
{
    reveal_strlit("event");
    reveal_strlit("candidate");
    reveal_strlit("provider");
    reveal_strlit("device");
    reveal_strlit("wall_ms");
    reveal_strlit("accepted");
    reveal_strlit("ts");
    assert("event"@.len() != "candidate"@.len());
    assert("event"@.len() != "provider"@.len());
    assert("event"@.len() != "device"@.len());
    assert("event"@.len() != "wall_ms"@.len());
    assert("event"@.len() != "accepted"@.len());
    assert("event"@.len() != "ts"@.len());
    assert("candidate"@.len() != "provider"@.len());
    assert("candidate"@.len() != "device"@.len());
    assert("candidate"@.len() != "wall_ms"@.len());
    assert("candidate"@.len() != "accepted"@.len());
    assert("candidate"@.len() != "ts"@.len());
    assert("provider"@.len() != "device"@.len());
    assert("provider"@.len() != "wall_ms"@.len());
    assert("provider"@[0] != "accepted"@[0]);
    assert("provider"@.len() != "ts"@.len());
    assert("device"@.len() != "wall_ms"@.len());
    assert("device"@.len() != "accepted"@.len());
    assert("device"@.len() != "ts"@.len());
    assert("wall_ms"@.len() != "accepted"@.len());
    assert("wall_ms"@.len() != "ts"@.len());
    assert("accepted"@.len() != "ts"@.len());
    assert(bench_fields(candidate, provider, device, wall_ms, accepted, unix_secs).dom() =~= set!["event"@, "candidate"@, "provider"@, "device"@, "wall_ms"@, "accepted"@, "ts"@]);
}

/// The event on the end of a recording holds its mode and figures, and no word of the
/// text.
pub proof fn recordings_are_recorded_by_their_figures(mode: Seq<char>, decode_wall_ms: u64, finalize_ms: u64, partials_advanced: u32)
    ensures
        ({
            let fields = session_fields(mode, decode_wall_ms, finalize_ms, partials_advanced);
            &&& fields["event"@] == Field::Text("session_end"@)
            &&& fields["mode"@] == Field::Text(mode)
            &&& fields["decode_wall_ms"@] == Field::Number(decode_wall_ms as int)
            &&& fields["finalize_ms"@] == Field::Number(finalize_ms as int)
            &&& fields["partials_advanced"@] == Field::Number(partials_advanced as int)
            &&& fields.dom() == set!["event"@, "mode"@, "decode_wall_ms"@, "finalize_ms"@, "partials_advanced"@]
        }),
{
    reveal_strlit("event");
    reveal_strlit("mode");
    reveal_strlit("decode_wall_ms");
    reveal_strlit("finalize_ms");
    reveal_strlit("partials_advanced");
    assert("event"@.len() != "mode"@.len());
    assert("event"@.len() != "decode_wall_ms"@.len());
    assert("event"@.len() != "finalize_ms"@.len());
    assert("event"@.len() != "partials_advanced"@.len());
    assert("mode"@.len() != "decode_wall_ms"@.len());
    assert("mode"@.len() != "finalize_ms"@.len());
    assert("mode"@.len() != "partials_advanced"@.len());
    assert("decode_wall_ms"@.len() != "finalize_ms"@.len());
    assert("decode_wall_ms"@.len() != "partials_advanced"@.len());
    assert("finalize_ms"@.len() != "partials_advanced"@.len());
    assert(session_fields(mode, decode_wall_ms, finalize_ms, partials_advanced).dom() =~= set!["event"@, "mode"@, "decode_wall_ms"@, "finalize_ms"@, "partials_advanced"@]);
}

/// The event on a download holds what came, how much of it and from where, and no more.
pub proof fn downloads_are_recorded(model: Seq<char>, bytes: u64, source: Seq<char>)
    ensures
        ({
            let fields = download_fields(model, bytes, source);
            &&& fields["event"@] == Field::Text("model_download"@)
            &&& fields["model"@] == Field::Text(model)
            &&& fields["bytes"@] == Field::Number(bytes as int)
            &&& fields["source"@] == Field::Text(source)
            &&& fields.dom() == set!["event"@, "model"@, "bytes"@, "source"@]
        }),
{
    reveal_strlit("event");
    reveal_strlit("model");
    reveal_strlit("bytes");
    reveal_strlit("source");
    assert("event"@[0] != "model"@[0]);
    assert("event"@[0] != "bytes"@[0]);
    assert("event"@.len() != "source"@.len());
    assert("model"@[0] != "bytes"@[0]);
    assert("model"@.len() != "source"@.len());
    assert("bytes"@.len() != "source"@.len());
    assert(download_fields(model, bytes, source).dom() =~= set!["event"@, "model"@, "bytes"@, "source"@]);
}

/// The summary of the settings holds the engine, the threads, the vendor and whether
/// recordings are rewritten, and no more.
pub proof fn summaries_hold_the_settings(config: crate::config::ConfigView, vendor: Seq<char>)
    ensures
        ({
            let fields = summary_fields(config, vendor);
            &&& fields["model"@] == Field::Text(config.record_model)
            &&& fields["threads"@] == Field::Number(config.backend_cache.asr.threads as int)
            &&& fields["provider"@] == Field::Text(vendor)
            &&& fields["rewrite_enabled"@] == Field::Flag(config.rewrite_record)
            &&& fields.dom() == set!["model"@, "threads"@, "provider"@, "rewrite_enabled"@]
        }),
{
    reveal_strlit("model");
    reveal_strlit("threads");
    reveal_strlit("provider");
    reveal_strlit("rewrite_enabled");
    assert("model"@.len() != "threads"@.len());
    assert("model"@.len() != "provider"@.len());
    assert("model"@.len() != "rewrite_enabled"@.len());
    assert("threads"@.len() != "provider"@.len());
    assert("threads"@.len() != "rewrite_enabled"@.len());
    assert("provider"@.len() != "rewrite_enabled"@.len());
    assert(summary_fields(config, vendor).dom() =~= set!["model"@, "threads"@, "provider"@, "rewrite_enabled"@]);
}

/// The description of a machine holds its system, processor and graphics, and one entry for
/// each model; its threads count as cores where the cores are not known.
pub proof fn devices_are_described(device: DeviceFacts, models: Seq<ModelInfo>)
    ensures
        ({
            let fields = device_fields(device, models);
            &&& fields["os_name"@] == Field::Text(device.os_name@)
            &&& fields["os_version"@] == Field::Text(device.os_version@)
            &&& fields["os_build"@] == Field::Text(device.os_build@)
            &&& fields["arch"@] == Field::Text(device.arch@)
            &&& fields["cpu_brand"@] == Field::Text(device.cpu_brand@)
            &&& fields["cpu_threads"@] == Field::Number(device.cpu_threads as int)
            &&& fields["cpu_physical_cores"@] == (if device.cpu_cores is Some {
                Field::Number(device.cpu_cores->0 as int)
            } else {
                Field::Number(device.cpu_threads as int)
            })
            &&& fields["power_state"@] == Field::Text("unknown"@)
            &&& fields["gpu_vendor"@] == Field::Text(device.gpu_vendor@)
            &&& fields["gpu_name"@] == Field::Text(device.gpu_name@)
            &&& fields["gpu_vram_mb"@] == Field::Number(0)
            &&& fields["gpu_driver"@] == Field::Text("unknown"@)
            &&& fields["models"@] == models_field(models)
            &&& fields.dom() == set!["os_name"@, "os_version"@, "os_build"@, "arch"@, "cpu_brand"@, "cpu_threads"@, "cpu_physical_cores"@, "power_state"@, "gpu_vendor"@, "gpu_name"@, "gpu_vram_mb"@, "gpu_driver"@, "models"@]
        }),
{
    reveal_strlit("os_name");
    reveal_strlit("os_version");
    reveal_strlit("os_build");
    reveal_strlit("arch");
    reveal_strlit("cpu_brand");
    reveal_strlit("cpu_threads");
    reveal_strlit("cpu_physical_cores");
    reveal_strlit("power_state");
    reveal_strlit("gpu_vendor");
    reveal_strlit("gpu_name");
    reveal_strlit("gpu_vram_mb");
    reveal_strlit("gpu_driver");
    reveal_strlit("models");
    assert("os_name"@.len() != "os_version"@.len());
    assert("os_name"@.len() != "os_build"@.len());
    assert("os_name"@.len() != "arch"@.len());
    assert("os_name"@.len() != "cpu_brand"@.len());
    assert("os_name"@.len() != "cpu_threads"@.len());
    assert("os_name"@.len() != "cpu_physical_cores"@.len());
    assert("os_name"@.len() != "power_state"@.len());
    assert("os_name"@.len() != "gpu_vendor"@.len());
    assert("os_name"@.len() != "gpu_name"@.len());
    assert("os_name"@.len() != "gpu_vram_mb"@.len());
    assert("os_name"@.len() != "gpu_driver"@.len());
    assert("os_name"@.len() != "models"@.len());
    assert("os_version"@.len() != "os_build"@.len());
    assert("os_version"@.len() != "arch"@.len());
    assert("os_version"@.len() != "cpu_brand"@.len());
    assert("os_version"@.len() != "cpu_threads"@.len());
    assert("os_version"@.len() != "cpu_physical_cores"@.len());
    assert("os_version"@.len() != "power_state"@.len());
    assert("os_version"@[0] != "gpu_vendor"@[0]);
    assert("os_version"@.len() != "gpu_name"@.len());
    assert("os_version"@.len() != "gpu_vram_mb"@.len());
    assert("os_version"@[0] != "gpu_driver"@[0]);
    assert("os_version"@.len() != "models"@.len());
    assert("os_build"@.len() != "arch"@.len());
    assert("os_build"@.len() != "cpu_brand"@.len());
    assert("os_build"@.len() != "cpu_threads"@.len());
    assert("os_build"@.len() != "cpu_physical_cores"@.len());
    assert("os_build"@.len() != "power_state"@.len());
    assert("os_build"@.len() != "gpu_vendor"@.len());
    assert("os_build"@[0] != "gpu_name"@[0]);
    assert("os_build"@.len() != "gpu_vram_mb"@.len());
    assert("os_build"@.len() != "gpu_driver"@.len());
    assert("os_build"@.len() != "models"@.len());
    assert("arch"@.len() != "cpu_brand"@.len());
    assert("arch"@.len() != "cpu_threads"@.len());
    assert("arch"@.len() != "cpu_physical_cores"@.len());
    assert("arch"@.len() != "power_state"@.len());
    assert("arch"@.len() != "gpu_vendor"@.len());
    assert("arch"@.len() != "gpu_name"@.len());
    assert("arch"@.len() != "gpu_vram_mb"@.len());
    assert("arch"@.len() != "gpu_driver"@.len());
    assert("arch"@.len() != "models"@.len());
    assert("cpu_brand"@.len() != "cpu_threads"@.len());
    assert("cpu_brand"@.len() != "cpu_physical_cores"@.len());
    assert("cpu_brand"@.len() != "power_state"@.len());
    assert("cpu_brand"@.len() != "gpu_vendor"@.len());
    assert("cpu_brand"@.len() != "gpu_name"@.len());
    assert("cpu_brand"@.len() != "gpu_vram_mb"@.len());
    assert("cpu_brand"@.len() != "gpu_driver"@.len());
    assert("cpu_brand"@.len() != "models"@.len());
    assert("cpu_threads"@.len() != "cpu_physical_cores"@.len());
    assert("cpu_threads"@[0] != "power_state"@[0]);
    assert("cpu_threads"@.len() != "gpu_vendor"@.len());
    assert("cpu_threads"@.len() != "gpu_name"@.len());
    assert("cpu_threads"@[0] != "gpu_vram_mb"@[0]);
    assert("cpu_threads"@.len() != "gpu_driver"@.len());
    assert("cpu_threads"@.len() != "models"@.len());
    assert("cpu_physical_cores"@.len() != "power_state"@.len());
    assert("cpu_physical_cores"@.len() != "gpu_vendor"@.len());
    assert("cpu_physical_cores"@.len() != "gpu_name"@.len());
    assert("cpu_physical_cores"@.len() != "gpu_vram_mb"@.len());
    assert("cpu_physical_cores"@.len() != "gpu_driver"@.len());
    assert("cpu_physical_cores"@.len() != "models"@.len());
    assert("power_state"@.len() != "gpu_vendor"@.len());
    assert("power_state"@.len() != "gpu_name"@.len());
    assert("power_state"@[0] != "gpu_vram_mb"@[0]);
    assert("power_state"@.len() != "gpu_driver"@.len());
    assert("power_state"@.len() != "models"@.len());
    assert("gpu_vendor"@.len() != "gpu_name"@.len());
    assert("gpu_vendor"@.len() != "gpu_vram_mb"@.len());
    assert("gpu_vendor"@[4] != "gpu_driver"@[4]);
    assert("gpu_vendor"@.len() != "models"@.len());
    assert("gpu_name"@.len() != "gpu_vram_mb"@.len());
    assert("gpu_name"@.len() != "gpu_driver"@.len());
    assert("gpu_name"@.len() != "models"@.len());
    assert("gpu_vram_mb"@.len() != "gpu_driver"@.len());
    assert("gpu_vram_mb"@.len() != "models"@.len());
    assert("gpu_driver"@.len() != "models"@.len());
    assert(device_fields(device, models).dom() =~= set!["os_name"@, "os_version"@, "os_build"@, "arch"@, "cpu_brand"@, "cpu_threads"@, "cpu_physical_cores"@, "power_state"@, "gpu_vendor"@, "gpu_name"@, "gpu_vram_mb"@, "gpu_driver"@, "models"@]);
}

/// The entry for a model holds its name, its size and whether it is there, and no more.
pub proof fn models_are_described(model: ModelInfo)
    ensures
        ({
            let fields = model_fields(model);
            &&& fields["id"@] == Field::Text(model.id@)
            &&& fields["bytes"@] == Field::Number(model.bytes as int)
            &&& fields["cached"@] == Field::Flag(model.cached)
            &&& fields.dom() == set!["id"@, "bytes"@, "cached"@]
        }),
{
    reveal_strlit("id");
    reveal_strlit("bytes");
    reveal_strlit("cached");
    assert("id"@.len() != "bytes"@.len());
    assert("id"@.len() != "cached"@.len());
    assert("bytes"@.len() != "cached"@.len());
    assert(model_fields(model).dom() =~= set!["id"@, "bytes"@, "cached"@]);
}

/// Every model has its entry, in order.
pub proof fn every_model_has_its_entry(models: Seq<ModelInfo>, i: int)
    requires
        0 <= i < models.len(),
    ensures
        models_field(models) matches Field::List(entries) && entries.len() == models.len()
            && entries[i] == model_fields(models[i]),
{
}

/// The days before a year are 365 for each since 1970, and one for each leap year: every
/// fourth, but for the full centuries that four does not divide.
pub proof fn leap_years_have_a_day_more(y: nat)
    requires
        y >= 1970,
    ensures
        days_before(y) == 365 * (y - 1970) + ((y - 1) / 4 - (y - 1) / 100 + (y - 1) / 400) - 477,
    decreases y,
{
    if y > 1970 {
        leap_years_have_a_day_more((y - 1) as nat);
    }
}

/// Any four hundred years have the same number of days.
pub proof fn calendars_repeat(y: nat)
    requires
        y >= 1970,
    ensures
        days_before(y + 400) == days_before(y) + 146_097,
{
    leap_years_have_a_day_more(y);
    leap_years_have_a_day_more(y + 400);
    let z = y - 1;
    assert((z + 400) / 4 == z / 4 + 100);
    assert((z + 400) / 100 == z / 100 + 4);
    assert((z + 400) / 400 == z / 400 + 1);
}

/// The months have 31 and 30 days in turn, with July and August both long, and February has
/// what is left of the year.
pub proof fn months_are_long_and_short_in_turn(y: nat, m: nat)
    requires
        1 <= m <= 12,
    ensures
        m != 2 && m <= 7 ==> month_len(y, m) == 30 + (m as int) % 2,
        m >= 8 ==> month_len(y, m) == 31 - (m as int) % 2,
        days_before_month(y, 13) == year_len(y),
        days_before_month(y, m + 1) == days_before_month(y, m) + month_len(y, m),
        days_before(y + 1) == days_before(y) + (if y >= 1970 {
            year_len(y)
        } else {
            0
        }),
{
    year_of_months(y);
}

/// A date has ten characters, with the year, the month and the day in full, and stands at
/// the front of a time stamp of twenty, whose hours, minutes and seconds make up the time of
/// the day.
pub proof fn time_stamps_have_their_parts(unix_secs: u64)
    requires
        date_of((unix_secs / 86400) as nat).0 < 10_000,
    ensures
        ({
            let (y, m, d) = date_of((unix_secs / 86400) as nat);
            let text = timestamp_text(unix_secs);
            let digit = |i: int| text[i] as u32 - '0' as u32;
            let pair = |i: int| digit(i) * 10 + digit(i + 1);
            &&& text.len() == 20
            &&& text.subrange(0, 10) == date_text(unix_secs)
            &&& pair(0) * 100 + pair(2) == y
            &&& text[4] == '-' && pair(5) == m
            &&& text[7] == '-' && pair(8) == d
            &&& text[10] == 'T' && text[13] == ':' && text[16] == ':' && text[19] == 'Z'
            &&& pair(11) * 3600 + pair(14) * 60 + pair(17) == unix_secs % 86_400
            &&& pair(11) < 24 && pair(14) < 60 && pair(17) < 60
        }),
{
    let (y, m, d) = date_of((unix_secs / 86400) as nat);
    dates_add_up((unix_secs / 86400) as nat);
    let year = four_digits_of(y);
    four_digits_are_read_back(y);
    let hour = (unix_secs % 86400 / 3600) as nat;
    let minute = (unix_secs % 86400 % 3600 / 60) as nat;
    let second = (unix_secs % 86400 % 60) as nat;
    crate::text::two_digits_are_read_back(m);
    crate::text::two_digits_are_read_back(d);
    crate::text::two_digits_are_read_back(hour);
    crate::text::two_digits_are_read_back(minute);
    crate::text::two_digits_are_read_back(second);
    reveal_strlit("-");
    reveal_strlit("T");
    reveal_strlit(":");
    reveal_strlit("Z");
    let text = timestamp_text(unix_secs);
    let date = date_text(unix_secs);
    assert(date.len() == 10);
    assert(text.subrange(0, 10) == date);
    assert(date[0] == year[0] && date[1] == year[1] && date[2] == year[2] && date[3] == year[3]);
    assert(hour * 3600 + minute * 60 + second == unix_secs % 86400);
}

proof fn four_digits_are_read_back(n: nat)
    requires
        n < 10_000,
    ensures
        four_digits_of(n).len() == 4,
        four_digits_of(n)[0] as u32 == 48 + n / 1000,
        four_digits_of(n)[1] as u32 == 48 + n / 100 % 10,
        four_digits_of(n)[2] as u32 == 48 + n / 10 % 10,
        four_digits_of(n)[3] as u32 == 48 + n % 10,
{
    reveal_strlit("0");
    reveal_strlit("00");
    reveal_strlit("000");
    crate::text::decimals_are_read_back(n);
    crate::text::decimals_are_read_back(n / 10);
    crate::text::decimals_are_read_back(n / 10 / 10);
    crate::text::decimals_are_read_back(n / 10 / 10 / 10);
    let (a, b, c) = (
        crate::text::decimal_of(n),
        crate::text::decimal_of(n / 10),
        crate::text::decimal_of(n / 10 / 10),
    );
    if n >= 10 {
        assert(a == b.push(a.last()));
    }
    if n >= 100 {
        assert(b == c.push(b.last()));
    }
    if n >= 1000 {
        assert(c == crate::text::decimal_of(n / 10 / 10 / 10).push(c.last()));
    }
}

/// Exactly the files with events are bundled, whatever stands beside them, and in order.
pub proof fn every_event_file_is_bundled(names: Seq<String>, name: String)
    ensures
        event_files(names.push(name)) == (if name@.len() > 6 && name@.subrange(
            name@.len() - 6,
            name@.len() as int,
        ) == ".jsonl"@ {
            event_files(names).push(name@)
        } else {
            event_files(names)
        }),
        event_files(Seq::empty()).len() == 0,
{
    assert(names.push(name).drop_last() == names);
}

/// The events of every moment go into a file that is bundled, and those of two moments into
/// the same one exactly where they are on one day.
pub proof fn a_day_has_its_file(a: u64, b: u64)
    requires
        date_of((a / 86400) as nat).0 < 10_000,
        date_of((b / 86400) as nat).0 < 10_000,
    ensures
        holds_events(date_text(a) + ".jsonl"@),
        date_text(a) + ".jsonl"@ == date_text(b) + ".jsonl"@ <==> a / 86_400 == b / 86_400,
{
    reveal_strlit(".jsonl");
    time_stamps_have_their_parts(a);
    time_stamps_have_their_parts(b);
    let (x, y) = (date_text(a), date_text(b));
    assert(x.len() == 10) by {
        assert(timestamp_text(a).subrange(0, 10).len() == 10);
    }
    assert(y.len() == 10) by {
        assert(timestamp_text(b).subrange(0, 10).len() == 10);
    }
    assert((x + ".jsonl"@).subrange(10, 16) == ".jsonl"@);
    if x + ".jsonl"@ == y + ".jsonl"@ {
        assert((x + ".jsonl"@).subrange(0, 10) == x);
        assert((y + ".jsonl"@).subrange(0, 10) == y);
        assert forall|i: int| 0 <= i < 10 implies timestamp_text(a)[i] == timestamp_text(b)[i] by {
            assert(timestamp_text(a).subrange(0, 10)[i] == x[i]);
            assert(timestamp_text(b).subrange(0, 10)[i] == y[i]);
        }
        dates_are_different((a / 86400) as nat, (b / 86400) as nat);
    }
}

/// A folder that was named is used as it is, with the log above it where there is anything
/// above; else both lie with the app's data, the events inside the log's folder.
pub proof fn named_folders_are_used(
    named: Seq<char>,
    parent: Seq<char>,
    appdata: Option<Seq<char>>,
)
    ensures
        telemetry_path(Some(named), appdata) == named,
        parent.len() > 0 ==> logs_path(Some(named), Some(parent), appdata) == parent,
        logs_path(Some(named), None, appdata) == named,
        logs_path(Some(named), Some(Seq::empty()), appdata) == named,
        telemetry_path(None, appdata) == crate::paths::path_in(
            logs_path(None, Some(parent), appdata),
            "telemetry"@,
        ),
        logs_path(None, Some(parent), Some(named)) == crate::paths::path_in(
            crate::paths::path_in(named, "amanuensis"@),
            "logs"@,
        ),
        logs_path(None, None, appdata) == logs_path(None, Some(parent), appdata),
{
}

/// A text that was written is bundled as it is, and a failure is told with what was being
/// done and what went wrong.
pub proof fn failed_exports_are_told(
    json: Seq<char>,
    detail: Seq<char>,
    failure: ExportFailure,
)
    ensures
        bundled_json(Ok(json), failure) == Ok::<Seq<char>, Seq<char>>(json),
        bundled_json(Err(detail), failure) is Err,
        bundled_json(Err(detail), ExportFailure::DeviceJson)->Err_0 == "serializing device info: "@
            + detail,
        bundled_json(Err(detail), ExportFailure::ConfigJson)->Err_0
            == "serializing config summary: "@ + detail,
        ExportFailure::Staging.wording() == "creating staging dir: "@,
        ExportFailure::DeviceFile.wording() == "writing device-info.json: "@,
        ExportFailure::ConfigFile.wording() == "writing config-summary.json: "@,
        ExportFailure::Shell.wording() == "running powershell: "@,
        ExportFailure::Archive.wording() == "Compress-Archive failed: "@,
{
}

/// Consent is off at first, and as it was last set.
pub proof fn consent_is_as_it_was_set(fresh: Telemetry, telemetry: Telemetry, told: bool)
    requires
        call_ensures(Telemetry::new, (), fresh),
        call_ensures(Telemetry::consent, (&telemetry,), told),
    ensures
        !fresh.consented,
        told == telemetry.consented,
        forall|t: &mut Telemetry, enabled: bool, r: ()| #[trigger]
            call_ensures(Telemetry::set_consent, (t, enabled), r) ==> final(t).consented == enabled,
{
}

/// With consent every event is recorded, and without it none is, whatever it is.
pub proof fn every_event_goes_by_consent(
    telemetry: Telemetry,
    unix_secs: u64,
    arch: &str,
    start: Option<String>,
    backend: BackendSelected,
    selected: Option<String>,
    end: RewriteEnd,
    rewritten: Option<String>,
    failure: ErrorEvent,
    failed: Option<String>,
    fallback: Fallback,
    fell: Option<String>,
)
    requires
        call_ensures(Telemetry::app_start, (&telemetry, unix_secs, arch), start),
        call_ensures(Telemetry::backend_selected, (&telemetry, &backend), selected),
        call_ensures(Telemetry::rewrite_end, (&telemetry, &end), rewritten),
        call_ensures(Telemetry::error, (&telemetry, &failure), failed),
        call_ensures(Telemetry::fallback, (&telemetry, &fallback), fell),
    ensures
        telemetry.consented ==> start is Some && selected is Some && rewritten is Some && failed
            is Some && fell is Some,
        !telemetry.consented ==> start is None && selected is None && rewritten is None && failed
            is None && fell is None,
        start is Some ==> start->0@ == line_of(start_fields(unix_secs, arch@)),
        selected is Some ==> selected->0@ == line_of(backend_fields(backend)),
        rewritten is Some ==> rewritten->0@ == line_of(rewrite_fields(end)),
        failed is Some ==> failed->0@ == line_of(error_fields(failure)),
        fell is Some ==> fell->0@ == line_of(fallback_fields(fallback)),
{
}

/// Both models are told of, each with its size where it is there and none where it is not.
pub proof fn both_models_are_told_of(
    nemotron: Option<u64>,
    moonshine: Option<u64>,
    models: Vec<ModelInfo>,
)
    requires
        call_ensures(gather_model_info, (true, nemotron, moonshine), models),
    ensures
        models@.len() == 2,
        models@[0].id@ == "nemotron"@ && models@[1].id@ == "moonshine"@,
        models@[0].cached <==> nemotron is Some,
        models@[1].cached <==> moonshine is Some,
        nemotron is Some ==> models@[0].bytes == nemotron->0,
        moonshine is Some ==> models@[1].bytes == moonshine->0,
        nemotron is None ==> models@[0].bytes == 0,
        moonshine is None ==> models@[1].bytes == 0,
{
}

} // verus!
