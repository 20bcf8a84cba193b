//! The read-only resources that the MCP server offers: the latest exported
//! meeting transcript and the shared dictionary. Reading a resource goes
//! through files; the steps here decide what is read and what is answered.

use vstd::prelude::*;

verus! {

/// A resource as it is listed.
#[derive(Debug, Clone)]
pub struct ResourceDescriptor {
    pub uri: String,
    pub name: String,
    pub description: String,
    pub mime_type: String,
}

/// The content returned for one read.
#[derive(Debug, Clone)]
pub struct ResourceContent {
    pub uri: String,
    pub mime_type: String,
    pub text: String,
}

/// What a resource URI names.
#[derive(Debug)]
pub enum ResourceKind {
    LatestMeeting,
    Dictionary,
    Unknown,
}

/// The resource a URI names.
pub open spec fn spec_resource_kind(uri: Seq<char>) -> ResourceKind {
    if uri == "meetily://meetings/latest"@ {
        ResourceKind::LatestMeeting
    } else if uri == "meetily://dictionary"@ {
        ResourceKind::Dictionary
    } else {
        ResourceKind::Unknown
    }
}

/// Which resource `uri` names.
pub fn resource_kind(uri: &str) -> (kind: ResourceKind)
    ensures
        kind == spec_resource_kind(uri@),
{
    let u = uri.to_owned();
    if u == String::from_str("meetily://meetings/latest") {
        ResourceKind::LatestMeeting
    } else if u == String::from_str("meetily://dictionary") {
        ResourceKind::Dictionary
    } else {
        ResourceKind::Unknown
    }
}

/// The resources the server offers.
pub fn list_resources() -> (resources: Vec<ResourceDescriptor>)
    ensures
        resources@.len() == 2,
        resources@[0].uri@ == "meetily://meetings/latest"@,
        resources@[0].name@ == "Latest Meeting"@,
        resources@[0].description@ == "The most recently completed meeting transcript"@,
        resources@[0].mime_type@ == "text/markdown"@,
        resources@[1].uri@ == "meetily://dictionary"@,
        resources@[1].name@ == "Shared Dictionary"@,
        resources@[1].description@
            == "Unified dictionary shared across Meetily, VoiceInk, and Raycast"@,
        resources@[1].mime_type@ == "application/json"@,
{
    let mut resources: Vec<ResourceDescriptor> = Vec::new();
    resources.push(
        ResourceDescriptor {
            uri: String::from_str("meetily://meetings/latest"),
            name: String::from_str("Latest Meeting"),
            description: String::from_str("The most recently completed meeting transcript"),
            mime_type: String::from_str("text/markdown"),
        },
    );
    resources.push(
        ResourceDescriptor {
            uri: String::from_str("meetily://dictionary"),
            name: String::from_str("Shared Dictionary"),
            description: String::from_str(
                "Unified dictionary shared across Meetily, VoiceInk, and Raycast",
            ),
            mime_type: String::from_str("application/json"),
        },
    );
    resources
}

/// The directory that resource files are found under when the user has no
/// home directory.
pub fn fallback_home_dir() -> (dir: String)
    ensures
        dir@ == "/tmp"@,
{
    String::from_str("/tmp")
}

/// The path, below the home directory, of the file a resource is read from.
pub open spec fn spec_resource_location(kind: ResourceKind) -> Option<Seq<Seq<char>>> {
    match kind {
        ResourceKind::LatestMeeting => Some(
            seq![".local"@, "share"@, "meetily"@, "last-export.json"@],
        ),
        ResourceKind::Dictionary => Some(
            seq![".config"@, "unified-dictionary"@, "dictionary.json"@],
        ),
        ResourceKind::Unknown => None,
    }
}

/// The path components, below the home directory, of the file a resource
/// is read from: the export notice for the latest meeting, the dictionary
/// file for the dictionary, and none for an unknown resource.
pub fn resource_location(kind: &ResourceKind) -> (path: Option<Vec<String>>)
    ensures
        match path {
            Some(p) => spec_resource_location(*kind) == Some(p@.map_values(|s: String| s@)),
            None => spec_resource_location(*kind) is None,
        },
{
    match kind {
        ResourceKind::LatestMeeting => {
            let mut p: Vec<String> = Vec::new();
            p.push(String::from_str(".local"));
            p.push(String::from_str("share"));
            p.push(String::from_str("meetily"));
            p.push(String::from_str("last-export.json"));
            assert(p@.map_values(|s: String| s@) =~= seq![
                ".local"@,
                "share"@,
                "meetily"@,
                "last-export.json"@,
            ]);
            Some(p)
        },
        ResourceKind::Dictionary => {
            let mut p: Vec<String> = Vec::new();
            p.push(String::from_str(".config"));
            p.push(String::from_str("unified-dictionary"));
            p.push(String::from_str("dictionary.json"));
            assert(p@.map_values(|s: String| s@) =~= seq![
                ".config"@,
                "unified-dictionary"@,
                "dictionary.json"@,
            ]);
            Some(p)
        },
        ResourceKind::Unknown => None,
    }
}

/// A content record for `uri`.
fn content(uri: &str, mime_type: String, text: String) -> (c: ResourceContent)
    ensures
        c.uri@ == uri@,
        c.mime_type == mime_type,
        c.text == text,
{
    ResourceContent { uri: uri.to_owned(), mime_type, text }
}

/// The answer for the latest meeting when nothing has been exported yet.
pub fn missing_export_content(uri: &str) -> (c: ResourceContent)
    ensures
        c.uri@ == uri@,
        c.mime_type@ == "text/plain"@,
        c.text@ == "No meetings exported yet."@,
{
    content(uri, String::from_str("text/plain"), String::from_str("No meetings exported yet."))
}

/// What `serde_json` finds as the string member `key` of the JSON text
/// `text`: `Err` with the parser's message when `text` is not JSON,
/// `Ok(None)` when it has no such member or the member is not a string.
pub uninterp spec fn json_string_member(text: Seq<char>, key: Seq<char>) -> Result<
    Option<Seq<char>>,
    Seq<char>,
>;

/// The characters of a member lookup's outcome.
pub open spec fn member_lookup_view(r: Result<Option<String>, String>) -> Result<
    Option<Seq<char>>,
    Seq<char>,
> {
    match r {
        Ok(Some(s)) => Ok(Some(s@)),
        Ok(None) => Ok(None),
        Err(e) => Err(e@),
    }
}

/// Parses `text` with `serde_json::from_str::<serde_json::Value>`; on
/// success looks up `key` with `Value::get` and keeps the member when
/// `Value::as_str` gives its string; on failure returns the `Display` text
/// of the `serde_json::Error`. The contract names the outcome
/// (`json_string_member`) and claims only that it depends on `text` and
/// `key` alone: what JSON text parses, and to what, is left unsaid.
#[verifier::external_body]
fn json_string_member_of(text: &str, key: &str) -> (r: Result<Option<String>, String>)
    ensures
        member_lookup_view(r) == json_string_member(text@, key@),
{
    match serde_json::from_str::<serde_json::Value>(text) {
        Ok(value) => Ok(value.get(key).and_then(serde_json::Value::as_str).map(str::to_string)),
        Err(e) => Err(e.to_string()),
    }
}

/// Reads the transcript path from the export notice: `Err` with the JSON
/// parser's message when the notice is not JSON, `Ok(None)` when it has no
/// string member `transcript_path`.
pub fn transcript_path_from_metadata(metadata: &str) -> (path: Result<Option<String>, String>)
    ensures
        member_lookup_view(path) == json_string_member(metadata@, "transcript_path"@),
{
    json_string_member_of(metadata, "transcript_path")
}

/// How the transcript named by the export notice was found.
#[derive(Debug)]
pub enum TranscriptLookup {
    /// The notice names no transcript.
    NoPathInMetadata,
    /// The transcript file was read.
    Loaded(String),
    /// The transcript file could not be read.
    Unreadable,
}

/// The answer for the latest meeting once its export notice has been read.
pub fn latest_meeting_content(uri: &str, transcript: TranscriptLookup) -> (c: ResourceContent)
    ensures
        c.uri@ == uri@,
        c.mime_type@ == "text/markdown"@,
        match transcript {
            TranscriptLookup::NoPathInMetadata => c.text@
                == "No transcript path in export metadata"@,
            TranscriptLookup::Loaded(t) => c.text == t,
            TranscriptLookup::Unreadable => c.text@ == "Transcript file not found"@,
        },
{
    let text = match transcript {
        TranscriptLookup::NoPathInMetadata => String::from_str(
            "No transcript path in export metadata",
        ),
        TranscriptLookup::Loaded(t) => t,
        TranscriptLookup::Unreadable => String::from_str("Transcript file not found"),
    };
    content(uri, String::from_str("text/markdown"), text)
}

/// The answer for the dictionary: the dictionary file's text, or an empty
/// JSON list when there is no such file.
pub fn dictionary_content(uri: &str, file: Option<String>) -> (c: ResourceContent)
    ensures
        c.uri@ == uri@,
        c.mime_type@ == "application/json"@,
        match file {
            Some(t) => c.text == t,
            None => c.text@ == "[]"@,
        },
{
    let text = match file {
        Some(t) => t,
        None => String::from_str("[]"),
    };
    content(uri, String::from_str("application/json"), text)
}

/// The answer for a URI that names no resource.
pub fn unknown_resource_content(uri: &str) -> (c: ResourceContent)
    ensures
        c.uri@ == uri@,
        c.mime_type@ == "text/plain"@,
        c.text@ == "Unknown resource: "@ + uri@,
{
    let mut text = String::from_str("Unknown resource: ");
    text.append(uri);
    content(uri, String::from_str("text/plain"), text)
}

/// The next thing to do while reading a resource.
#[derive(Debug)]
pub enum ResourceStep {
    /// Check whether the file at `location` (below the home directory) exists.
    CheckExists { kind: ResourceKind, location: Vec<String> },
    /// Read the file at `location` (below the home directory) as text.
    ReadFile { kind: ResourceKind, location: Vec<String> },
    /// Read the transcript file at `path` as text.
    ReadTranscript { path: String },
    /// Answer with this content.
    Done(ResourceContent),
    /// Fail with this message.
    Failed(String),
}

/// The characters of a list of strings.
pub open spec fn path_view(p: Seq<String>) -> Seq<Seq<char>> {
    p.map_values(|s: String| s@)
}

/// The content of a [`ResourceStep`].
pub enum StepView {
    CheckExists(ResourceKind, Seq<Seq<char>>),
    ReadFile(ResourceKind, Seq<Seq<char>>),
    ReadTranscript(Seq<char>),
    /// An answer: URI, content type and text.
    Done(Seq<char>, Seq<char>, Seq<char>),
    Failed(Seq<char>),
}

impl View for ResourceStep {
    type V = StepView;

    open spec fn view(&self) -> StepView {
        match self {
            ResourceStep::CheckExists { kind, location } => StepView::CheckExists(
                *kind,
                path_view(location@),
            ),
            ResourceStep::ReadFile { kind, location } => StepView::ReadFile(
                *kind,
                path_view(location@),
            ),
            ResourceStep::ReadTranscript { path } => StepView::ReadTranscript(path@),
            ResourceStep::Done(c) => StepView::Done(c.uri@, c.mime_type@, c.text@),
            ResourceStep::Failed(m) => StepView::Failed(m@),
        }
    }
}

/// The first step of reading `uri`.
pub open spec fn spec_begin_read(uri: Seq<char>) -> StepView {
    match spec_resource_kind(uri) {
        ResourceKind::Unknown => StepView::Done(uri, "text/plain"@, "Unknown resource: "@ + uri),
        k => StepView::CheckExists(k, spec_resource_location(k).unwrap()),
    }
}

/// The step after the existence check of a resource's file.
pub open spec fn spec_after_existence(
    uri: Seq<char>,
    kind: ResourceKind,
    location: Seq<Seq<char>>,
    exists: bool,
) -> StepView {
    if exists {
        StepView::ReadFile(kind, location)
    } else {
        match kind {
            ResourceKind::LatestMeeting => StepView::Done(
                uri,
                "text/plain"@,
                "No meetings exported yet."@,
            ),
            _ => StepView::Done(uri, "application/json"@, "[]"@),
        }
    }
}

/// The step after the transcript path was looked up in the export notice.
pub open spec fn spec_after_metadata(uri: Seq<char>, lookup: Result<Option<Seq<char>>, Seq<char>>) -> StepView {
    match lookup {
        Err(msg) => StepView::Failed(msg),
        Ok(Some(path)) => StepView::ReadTranscript(path),
        Ok(None) => StepView::Done(
            uri,
            "text/markdown"@,
            "No transcript path in export metadata"@,
        ),
    }
}

/// The step after a resource's file was read (`Err` with the read error's
/// message when it could not be).
pub open spec fn spec_after_file_read(uri: Seq<char>, kind: ResourceKind, read: Result<Seq<char>, Seq<char>>) -> StepView {
    match read {
        Err(e) => StepView::Failed(e),
        Ok(text) => match kind {
            ResourceKind::Dictionary => StepView::Done(uri, "application/json"@, text),
            _ => spec_after_metadata(uri, json_string_member(text, "transcript_path"@)),
        },
    }
}

/// The answer once the transcript was read (`None` when it could not be).
pub open spec fn spec_after_transcript(uri: Seq<char>, transcript: Option<Seq<char>>) -> StepView {
    match transcript {
        Some(t) => StepView::Done(uri, "text/markdown"@, t),
        None => StepView::Done(uri, "text/markdown"@, "Transcript file not found"@),
    }
}

/// The outcome of reading `uri` when the file system answers the existence
/// checks with `present`, the file reads with `file` and the transcript reads
/// with `transcript`: the steps below, run one after another.
pub open spec fn spec_read_resource(
    uri: Seq<char>,
    present: spec_fn(Seq<Seq<char>>) -> bool,
    file: spec_fn(Seq<Seq<char>>) -> Result<Seq<char>, Seq<char>>,
    transcript: spec_fn(Seq<char>) -> Option<Seq<char>>,
) -> StepView {
    match spec_begin_read(uri) {
        StepView::CheckExists(kind, location) => match spec_after_existence(
            uri,
            kind,
            location,
            present(location),
        ) {
            StepView::ReadFile(kind, location) => match spec_after_file_read(
                uri,
                kind,
                file(location),
            ) {
                StepView::ReadTranscript(path) => spec_after_transcript(uri, transcript(path)),
                other => other,
            },
            other => other,
        },
        other => other,
    }
}

/// Starts reading `uri`: a known resource first checks its file; an
/// unknown one is answered at once.
pub fn begin_resource_read(uri: &str) -> (step: ResourceStep)
    ensures
        step@ == spec_begin_read(uri@),
{
    let kind = resource_kind(uri);
    match resource_location(&kind) {
        Some(location) => ResourceStep::CheckExists { kind, location },
        None => ResourceStep::Done(unknown_resource_content(uri)),
    }
}

/// Continues after the existence check of a resource's file: an existing
/// file is read; without one, the latest meeting answers that nothing was
/// exported and the dictionary answers with an empty list.
pub fn after_existence_check(uri: &str, kind: ResourceKind, location: Vec<String>, exists: bool) -> (step: ResourceStep)
    requires
        !(kind is Unknown),
    ensures
        step@ == spec_after_existence(uri@, kind, path_view(location@), exists),
        exists ==> step@ == StepView::ReadFile(kind, path_view(location@)),
        !exists ==> (step@ matches StepView::Done(u, _, _) && u == uri@),
{
    if exists {
        ResourceStep::ReadFile { kind, location }
    } else {
        match kind {
            ResourceKind::LatestMeeting => ResourceStep::Done(missing_export_content(uri)),
            _ => ResourceStep::Done(dictionary_content(uri, None)),
        }
    }
}

/// Continues after the transcript path was looked up in the export notice:
/// a notice that is not JSON fails the request with the parser's message,
/// a named transcript is read next, and a notice naming none is answered.
pub fn after_metadata_lookup(uri: &str, lookup: Result<Option<String>, String>) -> (step: ResourceStep)
    ensures
        step@ == spec_after_metadata(uri@, member_lookup_view(lookup)),
{
    match lookup {
        Err(msg) => ResourceStep::Failed(msg),
        Ok(Some(path)) => ResourceStep::ReadTranscript { path },
        Ok(None) => ResourceStep::Done(
            latest_meeting_content(uri, TranscriptLookup::NoPathInMetadata),
        ),
    }
}

/// The characters of a file read's outcome.
pub open spec fn read_view(r: Result<String, String>) -> Result<Seq<char>, Seq<char>> {
    match r {
        Ok(t) => Ok(t@),
        Err(e) => Err(e@),
    }
}

/// Continues after a resource's file was read (or failed to be read, with
/// the given message): a read failure fails the request; the dictionary
/// answers with the file's text; the latest meeting's export notice is
/// parsed and the transcript path looked up; see [`after_metadata_lookup`].
pub fn after_file_read(uri: &str, kind: ResourceKind, read: Result<String, String>) -> (step: ResourceStep)
    requires
        !(kind is Unknown),
    ensures
        step@ == spec_after_file_read(uri@, kind, read_view(read)),
{
    match read {
        Err(e) => ResourceStep::Failed(e),
        Ok(text) => match kind {
            ResourceKind::Dictionary => ResourceStep::Done(dictionary_content(uri, Some(text))),
            _ => after_metadata_lookup(uri, transcript_path_from_metadata(text.as_str())),
        },
    }
}

/// Finishes reading the latest meeting once its transcript was read, or
/// found unreadable.
pub fn after_transcript_read(uri: &str, transcript: Option<String>) -> (step: ResourceStep)
    ensures
        step@ == spec_after_transcript(uri@, opt_text_view(transcript)),
{
    match transcript {
        Some(t) => ResourceStep::Done(latest_meeting_content(uri, TranscriptLookup::Loaded(t))),
        None => ResourceStep::Done(latest_meeting_content(uri, TranscriptLookup::Unreadable)),
    }
}

/// The characters of an optional text.
pub open spec fn opt_text_view(o: Option<String>) -> Option<Seq<char>> {
    match o {
        Some(t) => Some(t@),
        None => None,
    }
}

/// A read consults only the file of the resource the URI names: two file
/// systems that agree on whether that file exists and on what reading it
/// gives lead to the same step before any transcript is read, and the same
/// answer when they also agree on the transcripts.
pub proof fn lemma_read_uses_the_named_file(
    uri: Seq<char>,
    present: spec_fn(Seq<Seq<char>>) -> bool,
    file: spec_fn(Seq<Seq<char>>) -> Result<Seq<char>, Seq<char>>,
    other_present: spec_fn(Seq<Seq<char>>) -> bool,
    other_file: spec_fn(Seq<Seq<char>>) -> Result<Seq<char>, Seq<char>>,
    transcript: spec_fn(Seq<char>) -> Option<Seq<char>>,
)
    requires
        !(spec_resource_kind(uri) is Unknown) ==> {
            let loc = spec_resource_location(spec_resource_kind(uri)).unwrap();
            present(loc) == other_present(loc) && file(loc) == other_file(loc)
        },
    ensures
        spec_read_resource(uri, present, file, transcript) == spec_read_resource(
            uri,
            other_present,
            other_file,
            transcript,
        ),
{
}

/// Reading the dictionary answers with the text of the file at
/// `~/.config/unified-dictionary/dictionary.json` when it exists and reads,
/// and with an empty list when it does not exist.
pub proof fn lemma_dictionary_read_answers_its_file(
    present: spec_fn(Seq<Seq<char>>) -> bool,
    file: spec_fn(Seq<Seq<char>>) -> Result<Seq<char>, Seq<char>>,
    transcript: spec_fn(Seq<char>) -> Option<Seq<char>>,
)
    ensures
        ({
            let loc = seq![".config"@, "unified-dictionary"@, "dictionary.json"@];
            let uri = "meetily://dictionary"@;
            &&& present(loc) && file(loc) is Ok ==> spec_read_resource(uri, present, file, transcript)
                == StepView::Done(uri, "application/json"@, file(loc)->Ok_0)
            &&& !present(loc) ==> spec_read_resource(uri, present, file, transcript)
                == StepView::Done(uri, "application/json"@, "[]"@)
        }),
{
    reveal_strlit("meetily://meetings/latest");
    reveal_strlit("meetily://dictionary");
}

/// Reading the latest meeting reads the export notice at
/// `~/.local/share/meetily/last-export.json`; when the notice names a
/// transcript, the answer is that transcript's text as markdown.
pub proof fn lemma_latest_read_answers_named_transcript(
    present: spec_fn(Seq<Seq<char>>) -> bool,
    file: spec_fn(Seq<Seq<char>>) -> Result<Seq<char>, Seq<char>>,
    transcript: spec_fn(Seq<char>) -> Option<Seq<char>>,
    notice: Seq<char>,
    path: Seq<char>,
    text: Seq<char>,
)
    requires
        present(seq![".local"@, "share"@, "meetily"@, "last-export.json"@]),
        file(seq![".local"@, "share"@, "meetily"@, "last-export.json"@]) == Ok::<
            Seq<char>,
            Seq<char>,
        >(notice),
        json_string_member(notice, "transcript_path"@) == Ok::<Option<Seq<char>>, Seq<char>>(
            Some(path),
        ),
        transcript(path) == Some(text),
    ensures
        spec_read_resource("meetily://meetings/latest"@, present, file, transcript)
            == StepView::Done("meetily://meetings/latest"@, "text/markdown"@, text),
{
}

/// A read ends in an answer or a failure. An answer repeats the requested
/// URI and has one of the three content types; a failure comes only for one
/// of the two known resources (from a file read or the export notice).
pub proof fn lemma_read_ends_in_answer_or_known_failure(
    uri: Seq<char>,
    present: spec_fn(Seq<Seq<char>>) -> bool,
    file: spec_fn(Seq<Seq<char>>) -> Result<Seq<char>, Seq<char>>,
    transcript: spec_fn(Seq<char>) -> Option<Seq<char>>,
)
    ensures
        match spec_read_resource(uri, present, file, transcript) {
            StepView::Done(u, mime, _) => u == uri && (mime == "text/plain"@ || mime
                == "text/markdown"@ || mime == "application/json"@),
            StepView::Failed(_) => uri == "meetily://meetings/latest"@ || uri
                == "meetily://dictionary"@,
            _ => false,
        },
{
}

/// A listed resource is answered with the content type it is listed with,
/// except that the latest meeting answers in plain text that nothing has
/// been exported yet; and no listed URI is treated as unknown.
pub proof fn lemma_listed_resources_answer_with_listed_type(
    resources: Seq<ResourceDescriptor>,
    i: int,
    present: spec_fn(Seq<Seq<char>>) -> bool,
    file: spec_fn(Seq<Seq<char>>) -> Result<Seq<char>, Seq<char>>,
    transcript: spec_fn(Seq<char>) -> Option<Seq<char>>,
)
    requires
        resources.len() == 2,
        resources[0].uri@ == "meetily://meetings/latest"@,
        resources[0].mime_type@ == "text/markdown"@,
        resources[1].uri@ == "meetily://dictionary"@,
        resources[1].mime_type@ == "application/json"@,
        0 <= i < 2,
    ensures
        !(spec_resource_kind(resources[i].uri@) is Unknown),
        spec_read_resource(resources[i].uri@, present, file, transcript) matches StepView::Done(
            _,
            mime,
            text,
        ) ==> mime == resources[i].mime_type@ || (resources[i].uri@
            == "meetily://meetings/latest"@ && mime == "text/plain"@ && text
            == "No meetings exported yet."@),
{
    reveal_strlit("meetily://meetings/latest");
    reveal_strlit("meetily://dictionary");
}

/// Every listed resource is one that can be read.
pub proof fn lemma_listed_resources_are_readable(resources: Seq<ResourceDescriptor>, i: int)
    requires
        resources.len() == 2,
        resources[0].uri@ == "meetily://meetings/latest"@,
        resources[1].uri@ == "meetily://dictionary"@,
        0 <= i < 2,
    ensures
        !(spec_resource_kind(resources[i].uri@) is Unknown),
        spec_resource_location(spec_resource_kind(resources[i].uri@)) is Some,
{
}

} // verus!
