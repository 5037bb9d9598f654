//! Prompts: what a message asks for, and how edits and cancellations change it.
use super::{accepted, opt_json, Receipt, ReceiptView};
use crate::json::{object, Data, Json};
use crate::table::Table;
use crate::text::{opt, same};
use vstd::prelude::*;

verus! {

/// A queued message as it stands now.
#[derive(Debug)]
pub struct PromptState {
    pub revision: u64,
    pub input: Json,
    pub cancelled: bool,
}

/// The mathematical value of a queued message.
pub struct PromptView {
    pub revision: u64,
    pub input: Data,
    pub cancelled: bool,
}

impl View for PromptState {
    type V = PromptView;

    open spec fn view(&self) -> PromptView {
        PromptView { revision: self.revision, input: self.input@, cancelled: self.cancelled }
    }
}

/// A string that is not empty.
pub open spec fn some_text(value: Data) -> Option<Seq<char>> {
    match value {
        Data::Text(t) => if t.len() > 0 {
            Some(t)
        } else {
            None
        },
        _ => None,
    }
}

/// The string of a value, unless it is empty.
pub fn non_empty(value: &Json) -> (r: Option<String>)
    ensures
        opt(r) == some_text(value@),
{
    match value.as_text() {
        Some(t) => if t.is_empty() {
            None
        } else {
            Some(t.to_owned())
        },
        None => None,
    }
}

/// The text of a message.
pub fn text(input: &Json) -> (r: String)
    ensures
        r@ == input@.field("text"@).text_or_empty(),
{
    input.field("text").text_or_empty().to_owned()
}

/// The level of reasoning that a message asks for.
pub fn reasoning(input: &Json) -> (r: Option<String>)
    ensures
        opt(r) == some_text(input@.field("reasoning"@)),
{
    non_empty(input.field("reasoning"))
}

/// The service tier that a message asks for.
pub fn service_tier(input: &Json) -> (r: Option<String>)
    ensures
        opt(r) == some_text(input@.field("service_tier"@)),
{
    non_empty(input.field("service_tier"))
}

/// A member that is there and not null.
pub open spec fn present(value: Data, key: Seq<char>) -> Option<Data> {
    match value.get(key) {
        Some(Data::Null) => None,
        found => found,
    }
}

/// The value with a member set, if there is something to set.
pub open spec fn with_opt(value: Data, key: Seq<char>, member: Option<Data>) -> Data {
    match member {
        Some(m) => value.with(key, m),
        None => value,
    }
}

/// A string as an optional value.
pub open spec fn as_value(text: Option<Seq<char>>) -> Option<Data> {
    match text {
        Some(t) => Some(Data::Text(t)),
        None => None,
    }
}

/// The members of an input that make up the message.
pub open spec fn payload(input: Data) -> Data {
    let base = Data::Object(map!["text"@ => Data::Text(input.field("text"@).text_or_empty())]);
    let reasoned = with_opt(base, "reasoning"@, as_value(some_text(input.field("reasoning"@))));
    let tiered = with_opt(
        reasoned,
        "service_tier"@,
        as_value(some_text(input.field("service_tier"@))),
    );
    with_opt(
        with_opt(tiered, "content"@, present(input, "content"@)),
        "attachments"@,
        present(input, "attachments"@),
    )
}

fn present_in<'a>(value: &'a Json, key: &str) -> (r: Option<&'a Json>)
    ensures
        opt_json(r) == present(value@, key@),
{
    match value.get(key) {
        Some(j) => if j.is_null() {
            None
        } else {
            Some(j)
        },
        None => None,
    }
}

/// The members of an input that make up the message.
pub fn prompt_payload(input: &Json) -> (r: Json)
    ensures
        r@ == payload(input@),
        r@ is Object,
{
    let mut map = object().with("text", Json::Text(text(input)));
    if let Some(value) = reasoning(input) {
        map.set("reasoning", Json::Text(value));
    }
    if let Some(value) = service_tier(input) {
        map.set("service_tier", Json::Text(value));
    }
    if let Some(value) = present_in(input, "content") {
        map.set("content", value.duplicate());
    }
    if let Some(value) = present_in(input, "attachments") {
        map.set("attachments", value.duplicate());
    }
    Json::Object(map)
}

/// An edit keeps the reasoning and the service tier of the message where it names none.
pub open spec fn edited_input(previous: Data, edit: Data) -> Data {
    kept(kept(payload(edit), previous, "reasoning"@), previous, "service_tier"@)
}

/// A member is taken over from an earlier value where there is none.
pub open spec fn kept(value: Data, previous: Data, key: Seq<char>) -> Data {
    if value.get(key) is None {
        with_opt(value, key, previous.get(key))
    } else {
        value
    }
}

fn keep(value: &mut Json, previous: &Json, key: &str)
    requires
        old(value)@ is Object,
    ensures
        final(value)@ == kept(old(value)@, previous@, key@),
        final(value)@ is Object,
{
    if value.get(key).is_none() {
        if let Some(found) = previous.get(key) {
            value.set(key, found.duplicate());
        }
    }
}

/// One more revision.
pub open spec fn next_revision(n: u64) -> u64 {
    if n == u64::MAX {
        n
    } else {
        (n + 1) as u64
    }
}

/// The messages after a receipt: acceptance adds a message, an edit replaces its content and a
/// cancellation marks it.
pub open spec fn prompts_after(
    prompts: Map<Seq<char>, PromptView>,
    receipt: ReceiptView,
) -> Map<Seq<char>, PromptView> {
    let target = receipt.input.field("target_request_id"@).as_text();
    if receipt.command == "prompt"@ {
        if receipt.state == "accepted"@ && !prompts.contains_key(receipt.request_id) {
            prompts.insert(
                receipt.request_id,
                PromptView { revision: 1, input: receipt.input, cancelled: false },
            )
        } else {
            prompts
        }
    } else if receipt.command == "edit"@ {
        if receipt.state == "accepted"@ && target is Some && prompts.contains_key(target->0)
            && !prompts[target->0].cancelled {
            let was = prompts[target->0];
            prompts.insert(
                target->0,
                PromptView {
                    revision: next_revision(was.revision),
                    input: edited_input(was.input, receipt.input),
                    cancelled: false,
                },
            )
        } else {
            prompts
        }
    } else if receipt.command == "cancel"@ {
        if (receipt.state == "accepted"@ || receipt.state == "completed"@) && target is Some
            && prompts.contains_key(target->0) {
            prompts.insert(target->0, PromptView { cancelled: true, ..prompts[target->0] })
        } else {
            prompts
        }
    } else {
        prompts
    }
}

/// Brings the messages up to a receipt.
pub fn apply(prompts: &mut Table<PromptState>, receipt: &Receipt)
    ensures
        final(prompts)@ == prompts_after(old(prompts)@, receipt@),
{
    let ghost was = prompts@;
    if same(receipt.command.as_str(), "prompt") {
        if same(receipt.state.as_str(), "accepted") && !prompts.contains(
            receipt.request_id.as_str(),
        ) {
            prompts.insert(
                receipt.request_id.as_str(),
                PromptState {
                    revision: 1,
                    input: receipt.input.duplicate(),
                    cancelled: false,
                },
            );
        }
    } else if same(receipt.command.as_str(), "edit") {
        if same(receipt.state.as_str(), "accepted") {
            if let Some(target) = receipt.input.field_text("target_request_id") {
                let known = match prompts.get(target) {
                    Some(p) => !p.cancelled,
                    None => false,
                };
                if known {
                    if let Some(prompt) = prompts.remove(target) {
                        let mut updated = prompt_payload(&receipt.input);
                        keep(&mut updated, &prompt.input, "reasoning");
                        keep(&mut updated, &prompt.input, "service_tier");
                        let revision = if prompt.revision == u64::MAX {
                            prompt.revision
                        } else {
                            prompt.revision + 1
                        };
                        prompts.insert(
                            target,
                            PromptState { revision, input: updated, cancelled: false },
                        );
                        assert(prompts@ =~= prompts_after(was, receipt@));
                    }
                }
            }
        }
    } else if same(receipt.command.as_str(), "cancel") {
        if same(receipt.state.as_str(), "accepted") || same(receipt.state.as_str(), "completed") {
            if let Some(target) = receipt.input.field_text("target_request_id") {
                if let Some(prompt) = prompts.remove(target) {
                    prompts.insert(
                        target,
                        PromptState {
                            revision: prompt.revision,
                            input: prompt.input,
                            cancelled: true,
                        },
                    );
                    assert(prompts@ =~= prompts_after(was, receipt@));
                }
            }
        }
    }
}

/// The content to send for a request: the message as it stands now, or what was first asked for
/// where there is no message or it was cancelled.
pub open spec fn latest_input(
    prompts: Map<Seq<char>, PromptView>,
    receipts: Map<Seq<char>, ReceiptView>,
    request: Seq<char>,
) -> Option<Data> {
    if prompts.contains_key(request) && !prompts[request].cancelled {
        Some(prompts[request].input)
    } else if receipts.contains_key(request) {
        Some(receipts[request].input)
    } else {
        None
    }
}

/// The content to send for a request.
pub fn latest<'a>(
    prompts: &'a Table<PromptState>,
    receipts: &'a Table<Receipt>,
    request: &str,
) -> (r: Option<&'a Json>)
    ensures
        opt_json(r) == latest_input(prompts@, receipts@, request@),
{
    if let Some(prompt) = prompts.get(request) {
        if !prompt.cancelled {
            return Some(&prompt.input);
        }
    }
    match receipts.get(request) {
        Some(receipt) => Some(&receipt.input),
        None => None,
    }
}

/// A cancelled message stays cancelled, whatever receipt comes.
pub proof fn cancelled_stays_cancelled(
    prompts: Map<Seq<char>, PromptView>,
    receipt: ReceiptView,
    request: Seq<char>,
)
    requires
        prompts.contains_key(request),
        prompts[request].cancelled,
    ensures
        prompts_after(prompts, receipt).contains_key(request),
        prompts_after(prompts, receipt)[request].cancelled,
        prompts_after(prompts, receipt)[request].input == prompts[request].input,
{
}

/// No receipt makes the revision of a message smaller.
pub proof fn revisions_grow(
    prompts: Map<Seq<char>, PromptView>,
    receipt: ReceiptView,
    request: Seq<char>,
)
    requires
        prompts.contains_key(request),
    ensures
        prompts_after(prompts, receipt).contains_key(request),
        prompts_after(prompts, receipt)[request].revision >= prompts[request].revision,
{
}

/// A message that was accepted and then edited is sent with the text of the edit.
pub proof fn edit_replaces_the_text(
    prompts: Map<Seq<char>, PromptView>,
    receipts: Map<Seq<char>, ReceiptView>,
    prompt: ReceiptView,
    edit: ReceiptView,
)
    requires
        !prompts.contains_key(prompt.request_id),
        prompt.command == "prompt"@,
        prompt.state == "accepted"@,
        edit.command == "edit"@,
        edit.state == "accepted"@,
        edit.input.field("target_request_id"@) == Data::Text(prompt.request_id),
    ensures
        latest_input(
            prompts_after(prompts_after(prompts, prompt), edit),
            receipts,
            prompt.request_id,
        ) == Some(edited_input(prompt.input, edit.input)),
        edited_input(prompt.input, edit.input).field("text"@).text_or_empty() == edit.input.field(
            "text"@,
        ).text_or_empty(),
{
    reveal_strlit("prompt");
    reveal_strlit("edit");
    assert("prompt"@.len() == 6 && "edit"@.len() == 4);
    reveal_strlit("text");
    reveal_strlit("reasoning");
    reveal_strlit("service_tier");
    reveal_strlit("content");
    reveal_strlit("attachments");
    assert("text"@.len() == 4 && "reasoning"@.len() == 9 && "service_tier"@.len() == 12
        && "content"@.len() == 7 && "attachments"@.len() == 11);
}

} // verus!
