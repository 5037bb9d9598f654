//! fx, which speaks as Cursor does and keeps its own files of sessions.
use super::cursor::{
    fx_id, model_offered, offers_model, option_of, option_value, valid_fx_id,
};
use super::files::{below, components, components_of, same_texts, under};
use super::process::{first_bytes, take_bytes};
use crate::fault::{other, refused, Fault, FaultView};
use crate::json::{object, Data, Json};
use crate::text::{concat, concat3, owned, same, same_opt, strs, views};
use crate::wire::{bytes_read, parse_bytes};
use vstd::prelude::*;

verus! {

/// Refuses a home that is not that of the agents' account. `own` says whether both are one place.
pub fn check_home(own: bool) -> (r: Result<(), Fault>)
    ensures
        match r {
            Ok(()) => own,
            Err(f) => !own && f@ == refused(
                "fx home must belong to the configured agent account"@,
            ),
        },
{
    if own {
        Ok(())
    } else {
        Err(Fault::refused("fx home must belong to the configured agent account"))
    }
}

/// What fx is started with: agents have full access, and its version stays.
pub fn environment() -> (r: Vec<String>)
    ensures
        views(r@) == seq!["FX_PERMISSION_MODE=full-access"@, "FX_AUTO_UPGRADE=0"@],
{
    let all: [&str; 2] = ["FX_PERMISSION_MODE=full-access", "FX_AUTO_UPGRADE=0"];
    assert(strs(all@) =~= seq!["FX_PERMISSION_MODE=full-access"@, "FX_AUTO_UPGRADE=0"@]);
    owned(&all)
}

/// What fx is asked once its session is open: to take the model, where one is chosen.
pub open spec fn model_request(id: Seq<char>, session: Data, model: Seq<char>) -> Result<
    Option<Data>,
    FaultView,
> {
    if model == "default"@ {
        Ok(None)
    } else if !model_offered(session, model) {
        Err(refused("fx model "@ + model + " is unavailable for this account"@))
    } else {
        Ok(
            Some(
                Data::Object(
                    map![
                        "sessionId"@ => Data::Text(id),
                        "configId"@ => Data::Text("model"@),
                        "value"@ => Data::Text(model)
                    ],
                ),
            ),
        )
    }
}

/// What fx is asked once its session is open.
pub fn start(id: &str, session: &Json, model: &str) -> (r: Result<Option<Json>, Fault>)
    ensures
        match r {
            Ok(None) => model_request(id@, session@, model@) == Ok::<Option<Data>, FaultView>(None),
            Ok(Some(params)) => model_request(id@, session@, model@) == Ok::<
                Option<Data>,
                FaultView,
            >(Some(params@)),
            Err(f) => model_request(id@, session@, model@) == Err::<Option<Data>, FaultView>(f@),
        },
{
    if same(model, "default") {
        return Ok(None);
    }
    if !offers_model(session, model) {
        return Err(
            Fault::refused(
                concat3("fx model ", model, " is unavailable for this account").as_str(),
            ),
        );
    }
    Ok(
        Some(
            Json::Object(
                object().with_text("sessionId", id).with_text("configId", "model").with_text(
                    "value",
                    model,
                ),
            ),
        ),
    )
}

/// Refuses to go on where fx has not taken the model.
pub fn check_model(result: &Json, model: &str) -> (r: Result<(), Fault>)
    ensures
        match r {
            Ok(()) => option_of(result@, "model"@) == Some(model@),
            Err(f) => option_of(result@, "model"@) != Some(model@) && f@ == other(
                "fx did not confirm model "@ + model@,
            ),
        },
{
    if same_opt(option_value(result, "model"), Some(model)) {
        Ok(())
    } else {
        Err(Fault::other(concat("fx did not confirm model ", model).as_str()))
    }
}

/// Where fx keeps a session.
pub open spec fn session_file(home: Seq<char>, id: Seq<char>) -> Seq<char> {
    below(below(below(home, "sessions"@), id), "session.json"@)
}

/// Refuses a saved session whose file is not where fx keeps it.
pub fn check_path(home: &str, id: &str, path: &str) -> (r: Result<(), Fault>)
    ensures
        match r {
            Ok(()) => fx_id(id@) && components(path@) == components(session_file(home@, id@)),
            Err(f) => !(fx_id(id@) && components(path@) == components(session_file(home@, id@)))
                && f@ == other("fx native path does not match its session"@),
        },
{
    let root = under(home, "sessions");
    let directory = under(root.as_str(), id);
    let file = under(directory.as_str(), "session.json");
    if valid_fx_id(id) && same_texts(&components_of(path), &components_of(file.as_str())) {
        Ok(())
    } else {
        Err(Fault::other("fx native path does not match its session"))
    }
}

/// Refuses a file that is not that of the session.
pub fn check_metadata(value: &Json, id: &str) -> (r: Result<(), Fault>)
    ensures
        match r {
            Ok(()) => value@.field("id"@).is_text(id@),
            Err(f) => !value@.field("id"@).is_text(id@) && f@ == other(
                "Unsupported fx native metadata"@,
            ),
        },
{
    if value.field_is("id", id) {
        Ok(())
    } else {
        Err(Fault::other("Unsupported fx native metadata"))
    }
}

/// Refuses a file, read from its bytes, that is not that of the session. Of a file only as much is
/// read as a line may hold.
pub fn read_metadata(bytes: &[u8], id: &str) -> (r: Result<(), Fault>)
    ensures
        match bytes_read(first_bytes(bytes@)) {
            Ok(value) => r is Ok <==> value.field("id"@).is_text(id@),
            Err(f) => r is Err && r->Err_0@ == f,
        },
        bytes_read(first_bytes(bytes@)) is Ok && r is Err ==> r->Err_0@ == other(
            "Unsupported fx native metadata"@,
        ),
{
    match parse_bytes(take_bytes(bytes)) {
        Ok(value) => check_metadata(&value, id),
        Err(fault) => Err(fault),
    }
}

} // verus!
