//! Conversations that move here from another machine. A transfer is staged before one durable
//! activation makes it executable.
use super::accounts::verdict;
use super::{Error, ErrorView};
use crate::json::{object, Data, Json};
use crate::runtime::codex::model_views;
use crate::runtime::{is_pi_reasoning_level, pi_reasoning_level, Kind, Model, ModelView};
use crate::text::{
    all_in, all_text_in, byte_len, chars_of, contains_char, deep, includes, opt, opt_slice,
    opt_str, same, same_opt, size, split, split_chars, string_of, views, Class,
};
use vstd::prelude::*;

verus! {

/// A file of a transfer.
#[derive(Debug)]
pub struct Entry {
    pub path: String,
    pub size: u64,
    pub sha256: String,
    pub kind: String,
    pub executable: bool,
    pub symlink: bool,
    pub origin: Option<String>,
}

/// The mathematical value of a file of a transfer.
pub struct EntryView {
    pub path: Seq<char>,
    pub size: u64,
    pub sha256: Seq<char>,
    pub kind: Seq<char>,
    pub executable: bool,
    pub symlink: bool,
    pub origin: Option<Seq<char>>,
}

impl View for Entry {
    type V = EntryView;

    open spec fn view(&self) -> EntryView {
        EntryView {
            path: self.path@,
            size: self.size,
            sha256: self.sha256@,
            kind: self.kind@,
            executable: self.executable,
            symlink: self.symlink,
            origin: opt(self.origin),
        }
    }
}

/// The views of files.
pub open spec fn entry_views(files: Seq<Entry>) -> Seq<EntryView> {
    Seq::new(files.len(), |i: int| files[i]@)
}

/// A message that waits at the other machine.
#[derive(Debug)]
pub enum QueuedPrompt {
    Text(String),
    Input { text: String, reasoning: Option<String>, service_tier: Option<String> },
}

/// The mathematical value of a message that waits.
pub enum QueuedView {
    Text(Seq<char>),
    Input { text: Seq<char>, reasoning: Option<Seq<char>>, service_tier: Option<Seq<char>> },
}

impl View for QueuedPrompt {
    type V = QueuedView;

    open spec fn view(&self) -> QueuedView {
        match self {
            QueuedPrompt::Text(t) => QueuedView::Text(t@),
            QueuedPrompt::Input { text, reasoning, service_tier } => QueuedView::Input {
                text: text@,
                reasoning: opt(*reasoning),
                service_tier: opt(*service_tier),
            },
        }
    }
}

/// The views of messages that wait.
pub open spec fn queued_views(queued: Seq<QueuedPrompt>) -> Seq<QueuedView> {
    Seq::new(queued.len(), |i: int| queued[i]@)
}

/// An optional member of a message.
pub open spec fn with_level(value: Data, key: Seq<char>, text: Option<Seq<char>>) -> Data {
    match text {
        Some(t) => value.with(key, Data::Text(t)),
        None => value,
    }
}

/// A message as it is sent.
pub open spec fn message_input(
    text: Seq<char>,
    reasoning: Option<Seq<char>>,
    service_tier: Option<Seq<char>>,
) -> Data {
    with_level(
        with_level(
            Data::Object(map!["text"@ => Data::Text(text)]),
            "reasoning"@,
            reasoning,
        ),
        "service_tier"@,
        service_tier,
    )
}

/// A message that waits, as it is sent.
pub open spec fn queued_input(q: QueuedView) -> Data {
    match q {
        QueuedView::Text(text) => message_input(text, None, None),
        QueuedView::Input { text, reasoning, service_tier } => message_input(
            text,
            reasoning,
            service_tier,
        ),
    }
}

/// The text of a message that waits.
pub open spec fn queued_text(q: QueuedView) -> Seq<char> {
    match q {
        QueuedView::Text(text) => text,
        QueuedView::Input { text, .. } => text,
    }
}

/// What is moved: a conversation with its files and the work that waits.
#[derive(Debug)]
pub struct Manifest {
    pub request_id: String,
    pub harness: Kind,
    pub native_id: String,
    pub model: String,
    pub provider: Option<String>,
    pub reasoning: Option<String>,
    pub service_tier: Option<String>,
    pub command_guard_enabled: Option<bool>,
    pub workspace: String,
    pub workspace_name: String,
    pub files: Vec<Entry>,
    pub handoff: String,
    pub queued: Vec<QueuedPrompt>,
}

/// The mathematical value of what is moved.
pub struct ManifestView {
    pub request_id: Seq<char>,
    pub harness: Kind,
    pub native_id: Seq<char>,
    pub model: Seq<char>,
    pub provider: Option<Seq<char>>,
    pub reasoning: Option<Seq<char>>,
    pub service_tier: Option<Seq<char>>,
    pub command_guard_enabled: Option<bool>,
    pub workspace: Seq<char>,
    pub workspace_name: Seq<char>,
    pub files: Seq<EntryView>,
    pub handoff: Seq<char>,
    pub queued: Seq<QueuedView>,
}

impl View for Manifest {
    type V = ManifestView;

    open spec fn view(&self) -> ManifestView {
        ManifestView {
            request_id: self.request_id@,
            harness: self.harness,
            native_id: self.native_id@,
            model: self.model@,
            provider: opt(self.provider),
            reasoning: opt(self.reasoning),
            service_tier: opt(self.service_tier),
            command_guard_enabled: self.command_guard_enabled,
            workspace: self.workspace@,
            workspace_name: self.workspace_name@,
            files: entry_views(self.files@),
            handoff: self.handoff@,
            queued: queued_views(self.queued@),
        }
    }
}

impl Entry {
    /// Whether two files are described alike.
    pub fn same(&self, other: &Entry) -> (r: bool)
        ensures
            r == (self@ == other@),
    {
        same(self.path.as_str(), other.path.as_str()) && self.size == other.size && same(
            self.sha256.as_str(),
            other.sha256.as_str(),
        ) && same(self.kind.as_str(), other.kind.as_str()) && self.executable == other.executable
            && self.symlink == other.symlink && same_opt(
            opt_slice(&self.origin),
            opt_slice(&other.origin),
        )
    }
}

impl QueuedPrompt {
    /// Whether two messages are alike.
    pub fn same(&self, other: &QueuedPrompt) -> (r: bool)
        ensures
            r == (self@ == other@),
    {
        match (self, other) {
            (QueuedPrompt::Text(a), QueuedPrompt::Text(b)) => same(a.as_str(), b.as_str()),
            (
                QueuedPrompt::Input { text: a, reasoning: b, service_tier: c },
                QueuedPrompt::Input { text: x, reasoning: y, service_tier: z },
            ) => same(a.as_str(), x.as_str()) && same_opt(opt_slice(b), opt_slice(y)) && same_opt(
                opt_slice(c),
                opt_slice(z),
            ),
            _ => false,
        }
    }
}

fn same_entries(a: &Vec<Entry>, b: &Vec<Entry>) -> (r: bool)
    ensures
        r == (entry_views(a@) == entry_views(b@)),
{
    if a.len() != b.len() {
        assert(entry_views(a@).len() != entry_views(b@).len());
        return false;
    }
    let mut i: usize = 0;
    while i < a.len()
        invariant
            i <= a.len(),
            a.len() == b.len(),
            forall|j: int| 0 <= j < i ==> (#[trigger] a@[j])@ == b@[j]@,
        decreases a.len() - i,
    {
        if !a[i].same(&b[i]) {
            assert(entry_views(a@)[i as int] != entry_views(b@)[i as int]);
            return false;
        }
        i += 1;
    }
    assert(entry_views(a@) =~= entry_views(b@));
    true
}

fn same_queue(a: &Vec<QueuedPrompt>, b: &Vec<QueuedPrompt>) -> (r: bool)
    ensures
        r == (queued_views(a@) == queued_views(b@)),
{
    if a.len() != b.len() {
        assert(queued_views(a@).len() != queued_views(b@).len());
        return false;
    }
    let mut i: usize = 0;
    while i < a.len()
        invariant
            i <= a.len(),
            a.len() == b.len(),
            forall|j: int| 0 <= j < i ==> (#[trigger] a@[j])@ == b@[j]@,
        decreases a.len() - i,
    {
        if !a[i].same(&b[i]) {
            assert(queued_views(a@)[i as int] != queued_views(b@)[i as int]);
            return false;
        }
        i += 1;
    }
    assert(queued_views(a@) =~= queued_views(b@));
    true
}

impl Manifest {
    /// Whether the same is moved.
    pub fn same(&self, other: &Manifest) -> (r: bool)
        ensures
            r == (self@ == other@),
    {
        same(self.request_id.as_str(), other.request_id.as_str()) && self.harness == other.harness
            && same(self.native_id.as_str(), other.native_id.as_str()) && same(
            self.model.as_str(),
            other.model.as_str(),
        ) && same_opt(opt_slice(&self.provider), opt_slice(&other.provider)) && same_opt(
            opt_slice(&self.reasoning),
            opt_slice(&other.reasoning),
        ) && same_opt(opt_slice(&self.service_tier), opt_slice(&other.service_tier))
            && self.command_guard_enabled == other.command_guard_enabled && same(
            self.workspace.as_str(),
            other.workspace.as_str(),
        ) && same(self.workspace_name.as_str(), other.workspace_name.as_str()) && same_entries(
            &self.files,
            &other.files,
        ) && same(self.handoff.as_str(), other.handoff.as_str()) && same_queue(
            &self.queued,
            &other.queued,
        )
    }
}

// What is accepted.

/// What names a transfer.
pub open spec fn transfer_id(value: Seq<char>) -> bool {
    value.len() > 0 && byte_len(value) <= 64 && all_in(value, Class::Alnum, "-_"@)
}

/// Whether a text names a transfer.
pub fn valid_id(value: &str) -> (r: bool)
    ensures
        r == transfer_id(value@),
{
    chars_of(value).len() > 0 && size(value) <= 64 && all_text_in(value, Class::Alnum, "-_")
}

/// Refuses what does not name a transfer.
pub fn check_id(id: &str) -> (r: Result<(), Error>)
    ensures
        match r {
            Ok(_) => transfer_id(id@),
            Err(e) => !transfer_id(id@) && e@ == ErrorView::Conflict("invalid transfer ID"@),
        },
{
    if valid_id(id) {
        Ok(())
    } else {
        Err(Error::Conflict("invalid transfer ID".to_owned()))
    }
}

/// What is said of a file that was not put in its place: there was no room, or it is not what was
/// told of it.
pub fn not_placed(full: bool) -> (r: Error)
    ensures
        r@ == if full {
            no_room()
        } else {
            ErrorView::Conflict("teleport file validation failed"@)
        },
{
    if full {
        without_room()
    } else {
        Error::Conflict("teleport file validation failed".to_owned())
    }
}

/// The largest file of a transfer, in bytes.
pub const FILE_LIMIT: u64 = 4294967296;

/// A checksum in hexadecimal.
pub open spec fn is_digest(text: Seq<char>) -> bool {
    byte_len(text) == 64 && all_in(text, Class::Hex, ""@)
}

/// The file arrives beside the conversation, and may do so later.
pub open spec fn is_extra(kind: Seq<char>) -> bool {
    kind == "project"@ || kind == "attachment"@
}

/// The file is part of the text of the conversation.
pub open spec fn is_text_file(kind: Seq<char>) -> bool {
    kind == "native"@ || kind == "context"@
}

/// A path stays inside the folder it starts from.
pub open spec fn path_inside(path: Seq<char>) -> bool {
    &&& path.len() > 0
    &&& !path.contains('\\')
    &&& !path.contains('\0')
    &&& forall|i: int|
        0 <= i < split(path, '/').len() ==> {
            let part = #[trigger] split(path, '/')[i];
            part.len() > 0 && part != "."@ && part != ".."@
        }
}

/// A file can be taken in.
pub open spec fn entry_valid(e: EntryView) -> bool {
    &&& e.symlink ==> e.kind == "project"@
    &&& is_text_file(e.kind) || is_extra(e.kind)
    &&& e.size <= FILE_LIMIT
    &&& (e.sha256.len() == 0 && is_extra(e.kind)) || is_digest(e.sha256)
    &&& match e.origin {
        Some(o) => byte_len(o) <= 4096,
        None => true,
    }
    &&& path_inside(e.path)
}

/// A file that is named a second time.
pub open spec fn named_before(files: Seq<EntryView>, i: int) -> bool {
    exists|j: int|
        0 <= j < i && (#[trigger] files[j]).kind == files[i].kind && files[j].path
            == files[i].path
}

/// All files can be taken in, and none is named twice.
pub open spec fn files_valid(files: Seq<EntryView>) -> bool {
    forall|i: int| 0 <= i < files.len() ==> entry_valid(#[trigger] files[i]) && !named_before(files, i)
}

/// The number of conversations among the files.
pub open spec fn native_count(files: Seq<EntryView>) -> nat
    decreases files.len(),
{
    if files.len() == 0 {
        0
    } else {
        native_count(files.drop_last()) + if files.last().kind == "native"@ {
            1nat
        } else {
            0nat
        }
    }
}

/// A text of a reasonable length.
pub open spec fn fair(text: Seq<char>, limit: nat) -> bool {
    text.len() > 0 && byte_len(text) <= limit
}

/// The messages that wait have texts of a reasonable length.
pub open spec fn all_fair(queued: Seq<QueuedView>) -> bool {
    forall|i: int| 0 <= i < queued.len() ==> fair(queued_text(#[trigger] queued[i]), 32768)
}

/// What is moved is described well, apart from its files.
pub open spec fn manifest_valid(m: ManifestView) -> bool {
    &&& transfer_id(m.request_id)
    &&& transfer_id(m.native_id)
    &&& fair(m.model, 256)
    &&& match m.provider {
        Some(p) => fair(p, 256),
        None => true,
    }
    &&& fair(m.handoff, 32768)
    &&& all_fair(m.queued)
    &&& native_count(m.files) == 1
}

/// Why a transfer is refused.
pub open spec fn manifest_refused(m: ManifestView) -> Option<ErrorView> {
    if !manifest_valid(m) {
        Some(ErrorView::Conflict("invalid teleport manifest"@))
    } else if !files_valid(m.files) {
        Some(ErrorView::Conflict("invalid teleport file"@))
    } else {
        None
    }
}

fn is_fair(text: &str, limit: usize) -> (r: bool)
    ensures
        r == fair(text@, limit as nat),
{
    chars_of(text).len() > 0 && size(text) <= limit
}

fn is_digest_text(text: &str) -> (r: bool)
    ensures
        r == is_digest(text@),
{
    size(text) == 64 && all_text_in(text, Class::Hex, "")
}

fn is_extra_kind(kind: &str) -> (r: bool)
    ensures
        r == is_extra(kind@),
{
    same(kind, "project") || same(kind, "attachment")
}

fn stays_inside(path: &str) -> (r: bool)
    ensures
        r == path_inside(path@),
{
    let chars = chars_of(path);
    if chars.len() == 0 || contains_char(path, '\\') || contains_char(path, '\0') {
        return false;
    }
    let parts = split_chars(chars.as_slice(), '/');
    let ghost all = split(path@, '/');
    assert(deep(parts@) == all);
    let mut i: usize = 0;
    while i < parts.len()
        invariant
            i <= parts.len(),
            deep(parts@) == all,
            all == split(path@, '/'),
            forall|j: int|
                0 <= j < i ==> {
                    let part = #[trigger] all[j];
                    part.len() > 0 && part != "."@ && part != ".."@
                },
        decreases parts.len() - i,
    {
        assert(all[i as int] == parts@[i as int]@);
        let part = string_of(parts[i].as_slice());
        if parts[i].len() == 0 || same(part.as_str(), ".") || same(part.as_str(), "..") {
            return false;
        }
        i += 1;
    }
    true
}

impl Entry {
    fn is_valid(&self) -> (r: bool)
        ensures
            r == entry_valid(self@),
    {
        let kind = self.kind.as_str();
        let extra = is_extra_kind(kind);
        if self.symlink && !same(kind, "project") {
            return false;
        }
        if !same(kind, "native") && !same(kind, "context") && !extra {
            return false;
        }
        if self.size > FILE_LIMIT {
            return false;
        }
        if !(chars_of(self.sha256.as_str()).len() == 0 && extra) && !is_digest_text(
            self.sha256.as_str(),
        ) {
            return false;
        }
        if let Some(origin) = &self.origin {
            if size(origin.as_str()) > 4096 {
                return false;
            }
        }
        stays_inside(self.path.as_str())
    }
}

fn is_named_before(files: &Vec<Entry>, i: usize) -> (r: bool)
    requires
        i < files@.len(),
    ensures
        r == named_before(entry_views(files@), i as int),
{
    let ghost all = entry_views(files@);
    let mut j: usize = 0;
    while j < i
        invariant
            j <= i < files@.len(),
            all == entry_views(files@),
            forall|k: int|
                0 <= k < j ==> !((#[trigger] all[k]).kind == all[i as int].kind && all[k].path
                    == all[i as int].path),
        decreases i - j,
    {
        assert(all[j as int] == files@[j as int]@ && all[i as int] == files@[i as int]@);
        if same(files[j].kind.as_str(), files[i].kind.as_str()) && same(
            files[j].path.as_str(),
            files[i].path.as_str(),
        ) {
            return true;
        }
        j += 1;
    }
    false
}

fn are_valid(files: &Vec<Entry>) -> (r: bool)
    ensures
        r == files_valid(entry_views(files@)),
{
    let ghost all = entry_views(files@);
    let mut i: usize = 0;
    while i < files.len()
        invariant
            i <= files.len(),
            all == entry_views(files@),
            forall|j: int| 0 <= j < i ==> entry_valid(#[trigger] all[j]) && !named_before(all, j),
        decreases files.len() - i,
    {
        assert(all[i as int] == files@[i as int]@);
        if !files[i].is_valid() || is_named_before(files, i) {
            return false;
        }
        i += 1;
    }
    true
}

fn has_one_native(files: &Vec<Entry>) -> (r: bool)
    ensures
        r == (native_count(entry_views(files@)) == 1),
{
    let ghost all = entry_views(files@);
    let mut count: usize = 0;
    let mut i: usize = 0;
    assert(all.take(0) =~= Seq::empty());
    while i < files.len()
        invariant
            i <= files.len(),
            all == entry_views(files@),
            count <= i,
            count == native_count(all.take(i as int)),
        decreases files.len() - i,
    {
        assert(all.take(i + 1).drop_last() =~= all.take(i as int));
        assert(all.take(i + 1).last() == files@[i as int]@);
        if same(files[i].kind.as_str(), "native") {
            count += 1;
        }
        i += 1;
    }
    assert(all.take(i as int) =~= all);
    count == 1
}

impl QueuedPrompt {
    /// The text of the message.
    pub fn text(&self) -> (r: &str)
        ensures
            r@ == queued_text(self@),
    {
        match self {
            QueuedPrompt::Text(text) => text.as_str(),
            QueuedPrompt::Input { text, .. } => text.as_str(),
        }
    }

    /// The message as it is sent.
    pub fn input(&self) -> (r: Json)
        ensures
            r@ == queued_input(self@),
    {
        match self {
            QueuedPrompt::Text(text) => write_message(text.as_str(), None, None),
            QueuedPrompt::Input { text, reasoning, service_tier } => write_message(
                text.as_str(),
                opt_slice(reasoning),
                opt_slice(service_tier),
            ),
        }
    }
}

fn write_message(text: &str, reasoning: Option<&str>, service_tier: Option<&str>) -> (r: Json)
    ensures
        r@ == message_input(text@, opt_str(reasoning), opt_str(service_tier)),
{
    let mut fields = object().with_text("text", text);
    if let Some(level) = reasoning {
        fields = fields.with_text("reasoning", level);
    }
    if let Some(tier) = service_tier {
        fields = fields.with_text("service_tier", tier);
    }
    Json::Object(fields)
}

fn are_fair(queued: &Vec<QueuedPrompt>) -> (r: bool)
    ensures
        r == all_fair(queued_views(queued@)),
{
    let ghost all = queued_views(queued@);
    let mut i: usize = 0;
    while i < queued.len()
        invariant
            i <= queued.len(),
            all == queued_views(queued@),
            forall|j: int| 0 <= j < i ==> fair(queued_text(#[trigger] all[j]), 32768),
        decreases queued.len() - i,
    {
        assert(all[i as int] == queued@[i as int]@);
        if !is_fair(queued[i].text(), 32768) {
            return false;
        }
        i += 1;
    }
    true
}

/// Refuses what is not described well.
pub fn validate(manifest: &Manifest) -> (r: Result<(), Error>)
    ensures
        verdict(r) == manifest_refused(manifest@),
{
    let provider = match &manifest.provider {
        Some(p) => is_fair(p.as_str(), 256),
        None => true,
    };
    if !valid_id(manifest.request_id.as_str()) || !valid_id(manifest.native_id.as_str()) || !is_fair(
        manifest.model.as_str(),
        256,
    ) || !provider || !is_fair(manifest.handoff.as_str(), 32768) || !are_fair(&manifest.queued)
        || !has_one_native(&manifest.files) {
        return Err(Error::conflict("invalid teleport manifest"));
    }
    if !are_valid(&manifest.files) {
        return Err(Error::conflict("invalid teleport file"));
    }
    Ok(())
}

// The preparation of a transfer.

/// The words for storage that takes no transfer.
pub open spec fn no_room() -> ErrorView {
    ErrorView::Storage("transfers cannot be recorded now"@)
}

fn without_room() -> (r: Error)
    ensures
        r@ == no_room(),
{
    Error::Storage("transfers cannot be recorded now".to_owned())
}

/// What the service knows when a transfer is prepared.
#[derive(Clone, Copy, PartialEq, Eq, Structural, Debug)]
pub struct Readiness {
    pub stopping: bool,
    pub recording: bool,
    pub configured: bool,
    pub blocked: bool,
    /// The session of the transfer is saved elsewhere.
    pub saved: bool,
}

/// Why a new transfer cannot be prepared now.
pub open spec fn prepare_refused(m: ManifestView, now: Readiness) -> Option<ErrorView> {
    if now.stopping || !now.recording {
        Some(no_room())
    } else if m.harness != Kind::Codex && m.harness != Kind::Pi {
        Some(ErrorView::Conflict("Teleport supports Codex and Pi only"@))
    } else if !now.configured {
        Some(ErrorView::Conflict("harness is not configured"@))
    } else if m.harness == Kind::Codex && m.provider is Some {
        Some(ErrorView::Conflict("provider selection requires Pi"@))
    } else if now.blocked {
        Some(ErrorView::Conflict("storage unsafe; new execution is blocked"@))
    } else if now.saved {
        Some(ErrorView::Conflict("saved transfer requires recovery"@))
    } else {
        None
    }
}

/// The model of that name.
pub open spec fn model_named(models: Seq<ModelView>, name: Seq<char>) -> Option<ModelView>
    decreases models.len(),
{
    if models.len() == 0 {
        None
    } else if models[0].model == name {
        Some(models[0])
    } else {
        model_named(models.skip(1), name)
    }
}

/// The levels that may be asked for: those of the model of Codex, or those of Pi.
pub open spec fn level_known(levels: Option<Seq<Seq<char>>>, level: Seq<char>) -> bool {
    match levels {
        Some(l) => l.contains(level),
        None => pi_reasoning_level(level),
    }
}

/// Why the settings of a message cannot be.
pub open spec fn settings_refused(
    harness: Kind,
    levels: Option<Seq<Seq<char>>>,
    reasoning: Option<Seq<char>>,
    service_tier: Option<Seq<char>>,
) -> Option<ErrorView> {
    if reasoning is Some && !level_known(levels, reasoning->0) {
        Some(ErrorView::Conflict("invalid reasoning effort"@))
    } else if service_tier is Some && service_tier->0 != "default"@ && !(service_tier->0 == "fast"@
        && harness == Kind::Codex) {
        Some(ErrorView::Conflict("invalid service tier"@))
    } else {
        None
    }
}

/// Why a message that waits cannot be sent.
pub open spec fn queued_refused(harness: Kind, levels: Option<Seq<Seq<char>>>, q: QueuedView) -> Option<
    ErrorView,
> {
    match q {
        QueuedView::Text(_) => None,
        QueuedView::Input { reasoning, service_tier, .. } => settings_refused(
            harness,
            levels,
            reasoning,
            service_tier,
        ),
    }
}

/// The first reason why some message cannot be sent.
pub open spec fn first_refused(
    harness: Kind,
    levels: Option<Seq<Seq<char>>>,
    queued: Seq<QueuedView>,
) -> Option<ErrorView>
    decreases queued.len(),
{
    if queued.len() == 0 {
        None
    } else {
        match first_refused(harness, levels, queued.drop_last()) {
            Some(e) => Some(e),
            None => queued_refused(harness, levels, queued.last()),
        }
    }
}

/// Why the settings of a transfer cannot be. `models` are those of Codex, where it is Codex.
pub open spec fn execution_refused(m: ManifestView, models: Option<Seq<ModelView>>) -> Option<
    ErrorView,
> {
    match models {
        Some(all) => match model_named(all, m.model) {
            None => Some(ErrorView::Conflict("invalid model"@)),
            Some(model) => messages_refused(m, Some(model.reasoning_levels)),
        },
        None => messages_refused(m, None),
    }
}

/// Why the messages of a transfer cannot be sent: that of the handoff first, then those that wait.
pub open spec fn messages_refused(m: ManifestView, levels: Option<Seq<Seq<char>>>) -> Option<
    ErrorView,
> {
    match settings_refused(m.harness, levels, m.reasoning, m.service_tier) {
        Some(e) => Some(e),
        None => first_refused(m.harness, levels, m.queued),
    }
}

/// The view of optional models.
pub open spec fn opt_models(models: Option<&Vec<Model>>) -> Option<Seq<ModelView>> {
    match models {
        Some(m) => Some(model_views(m@)),
        None => None,
    }
}

/// The view of optional levels.
pub open spec fn opt_levels(levels: Option<&Vec<String>>) -> Option<Seq<Seq<char>>> {
    match levels {
        Some(l) => Some(views(l@)),
        None => None,
    }
}

/// The model of that name.
pub fn find_model<'a>(models: &'a Vec<Model>, name: &str) -> (r: Option<&'a Model>)
    ensures
        match r {
            Some(m) => model_named(model_views(models@), name@) == Some(m@),
            None => model_named(model_views(models@), name@) is None,
        },
{
    let ghost all = model_views(models@);
    let mut i: usize = 0;
    assert(all.skip(0) =~= all);
    while i < models.len()
        invariant
            i <= models.len(),
            all == model_views(models@),
            model_named(all, name@) == model_named(all.skip(i as int), name@),
        decreases models.len() - i,
    {
        let ghost rest = all.skip(i as int);
        assert(rest[0] == models@[i as int]@);
        assert(rest.skip(1) =~= all.skip(i + 1));
        if same(models[i].model.as_str(), name) {
            return Some(&models[i]);
        }
        i += 1;
    }
    None
}

fn refuse_settings(
    harness: Kind,
    levels: Option<&Vec<String>>,
    reasoning: Option<&str>,
    service_tier: Option<&str>,
) -> (r: Result<(), Error>)
    ensures
        verdict(r) == settings_refused(
            harness,
            opt_levels(levels),
            opt_str(reasoning),
            opt_str(service_tier),
        ),
{
    if let Some(level) = reasoning {
        let known = match levels {
            Some(l) => includes(l, level),
            None => is_pi_reasoning_level(level),
        };
        if !known {
            return Err(Error::conflict("invalid reasoning effort"));
        }
    }
    if let Some(tier) = service_tier {
        if !same(tier, "default") && !(same(tier, "fast") && harness == Kind::Codex) {
            return Err(Error::conflict("invalid service tier"));
        }
    }
    Ok(())
}

proof fn refusal_stays(
    harness: Kind,
    levels: Option<Seq<Seq<char>>>,
    queued: Seq<QueuedView>,
    n: int,
)
    requires
        0 <= n <= queued.len(),
        first_refused(harness, levels, queued.take(n)) is Some,
    ensures
        first_refused(harness, levels, queued) == first_refused(harness, levels, queued.take(n)),
    decreases queued.len() - n,
{
    if n == queued.len() {
        assert(queued.take(n) =~= queued);
    } else {
        assert(queued.take(n + 1).drop_last() =~= queued.take(n));
        refusal_stays(harness, levels, queued, n + 1);
    }
}

impl Manifest {
    /// Why a new transfer cannot be prepared now.
    pub fn check_prepare(&self, now: Readiness) -> (r: Result<(), Error>)
        ensures
            verdict(r) == prepare_refused(self@, now),
    {
        if now.stopping || !now.recording {
            return Err(without_room());
        }
        if self.harness != Kind::Codex && self.harness != Kind::Pi {
            return Err(Error::conflict("Teleport supports Codex and Pi only"));
        }
        if !now.configured {
            return Err(Error::conflict("harness is not configured"));
        }
        if self.harness == Kind::Codex && self.provider.is_some() {
            return Err(Error::conflict("provider selection requires Pi"));
        }
        if now.blocked {
            return Err(Error::conflict("storage unsafe; new execution is blocked"));
        }
        // What is missing here must not recreate what is saved elsewhere.
        if now.saved {
            return Err(Error::conflict("saved transfer requires recovery"));
        }
        Ok(())
    }

    /// Why the settings of a transfer cannot be.
    pub fn check_execution(&self, models: Option<&Vec<Model>>) -> (r: Result<(), Error>)
        ensures
            verdict(r) == execution_refused(self@, opt_models(models)),
    {
        let levels: Option<&Vec<String>> = match models {
            Some(all) => match find_model(all, self.model.as_str()) {
                Some(model) => Some(&model.reasoning_levels),
                None => {
                    return Err(Error::conflict("invalid model"));
                },
            },
            None => None,
        };
        if let Err(e) = refuse_settings(
            self.harness,
            levels,
            opt_slice(&self.reasoning),
            opt_slice(&self.service_tier),
        ) {
            return Err(e);
        }
        let ghost all = queued_views(self.queued@);
        let ghost known = opt_levels(levels);
        let mut i: usize = 0;
        assert(all.take(0) =~= Seq::empty());
        while i < self.queued.len()
            invariant
                i <= self.queued.len(),
                all == queued_views(self.queued@),
                known == opt_levels(levels),
                execution_refused(self@, opt_models(models)) == first_refused(
                    self.harness,
                    known,
                    all,
                ),
                first_refused(self.harness, known, all.take(i as int)) is None,
            decreases self.queued.len() - i,
        {
            assert(all.take(i + 1).drop_last() =~= all.take(i as int));
            assert(all.take(i + 1).last() == self.queued@[i as int]@);
            if let QueuedPrompt::Input { reasoning, service_tier, .. } = &self.queued[i] {
                if let Err(e) = refuse_settings(
                    self.harness,
                    levels,
                    opt_slice(reasoning),
                    opt_slice(service_tier),
                ) {
                    proof {
                        refusal_stays(self.harness, known, all, i + 1);
                    }
                    return Err(e);
                }
            }
            i += 1;
        }
        assert(all.take(i as int) =~= all);
        Ok(())
    }
}

} // verus!
