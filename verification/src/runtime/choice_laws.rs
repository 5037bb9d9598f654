//! What holds of the models that are chosen, the files that are named, the skills that are selected, and of
//! waiting for a process.
use super::claude_skills::{
    body_checked, chosen, instructions_in, mentioned, native_setting, skill_roots, Draft, Folder,
    Part, SkillView,
};
use super::cursor_models::{
    asked_model, level, level_of, resolved, served, shown_name, thinks, variant,
};
use super::files::{base64_digit, extension, image_placed, mime_type, part_image, attached_image};
use super::linux::{
    freezing, presence_of, waited, FreezeStepView, FreezingView, Patience, Presence, VerdictView, Wait,
};
use super::process::MAX_LINE;
use crate::fault::{FaultKind, FaultView};
use crate::json::Data;
use crate::text::{blank, byte_len, finishes, found_from, holds, lines, lowered, trimmed_start};
use vstd::prelude::*;

verus! {

proof fn choice_words()
    ensures
        "-"@.len() == 1 && "-"@[0] == '-',
        "1"@.len() == 1 && "1"@[0] == '1',
        "0"@.len() == 1 && "0"@[0] == '0',
        "low"@.len() == 3 && "low"@[0] == 'l',
        "max"@.len() == 3 && "max"@[0] == 'm',
        "png"@.len() == 3 && "png"@[0] == 'p',
        "jpg"@.len() == 3 && "jpg"@[0] == 'j',
        "gif"@.len() == 3 && "gif"@[0] == 'g',
        "url"@.len() == 3 && "url"@[0] == 'u',
        "end"@.len() == 3 && "end"@[0] == 'e',
        "none"@.len() == 4 && "none"@[3] == 'e' && "none"@[1] == 'o',
        "high"@.len() == 4 && "high"@[3] == 'h' && "high"@[1] == 'i',
        "-low"@.len() == 4 && "-low"@[3] == 'w' && "-low"@[1] == 'l',
        "-max"@.len() == 4 && "-max"@[3] == 'x' && "-max"@[1] == 'm',
        "auto"@.len() == 4 && "auto"@[3] == 'o' && "auto"@[1] == 'u',
        "jpeg"@.len() == 4 && "jpeg"@[3] == 'g' && "jpeg"@[1] == 'p',
        "webp"@.len() == 4 && "webp"@[3] == 'p' && "webp"@[1] == 'e',
        "heic"@.len() == 4 && "heic"@[3] == 'c' && "heic"@[1] == 'e',
        "type"@.len() == 4 && "type"@[3] == 'e' && "type"@[1] == 'y',
        "path"@.len() == 4 && "path"@[3] == 'h' && "path"@[1] == 'a',
        "kind"@.len() == 4 && "kind"@[3] == 'd' && "kind"@[1] == 'i',
        "data"@.len() == 4 && "data"@[3] == 'a' && "data"@[1] == 'a',
        "user"@.len() == 4 && "user"@[3] == 'r' && "user"@[1] == 's',
        "name"@.len() == 4 && "name"@[3] == 'e' && "name"@[1] == 'a',
        "text"@.len() == 4 && "text"@[3] == 't' && "text"@[1] == 'e',
        "xhigh"@.len() == 5 && "xhigh"@[3] == 'g' && "xhigh"@[0] == 'x',
        "-fast"@.len() == 5 && "-fast"@[3] == 's' && "-fast"@[0] == '-',
        "-high"@.len() == 5 && "-high"@[3] == 'g' && "-high"@[0] == '-',
        "-none"@.len() == 5 && "-none"@[3] == 'n' && "-none"@[0] == '-',
        "image"@.len() == 5 && "image"@[3] == 'g' && "image"@[0] == 'i',
        "start"@.len() == 5 && "start"@[3] == 'r' && "start"@[0] == 's',
        "model"@.len() == 5 && "model"@[3] == 'e' && "model"@[0] == 'm',
        "hooks"@.len() == 5 && "hooks"@[3] == 'k' && "hooks"@[0] == 'h',
        "shell"@.len() == 5 && "shell"@[3] == 'l' && "shell"@[0] == 's',
        "medium"@.len() == 6 && "medium"@[0] == 'm',
        "-xhigh"@.len() == 6 && "-xhigh"@[0] == '-',
        "skills"@.len() == 6 && "skills"@[0] == 's',
        "origin"@.len() == 6 && "origin"@[0] == 'o',
        "-medium"@.len() == 7 && "-medium"@[1] == 'm',
        "default"@.len() == 7 && "default"@[1] == 'e',
        "cursor-"@.len() == 7 && "cursor-"@[1] == 'u',
        "project"@.len() == 7 && "project"@[1] == 'r',
        "content"@.len() == 7 && "content"@[1] == 'o',
        "mimeType"@.len() == 8 && "mimeType"@[0] == 'm' && "mimeType"@[7] == 'e',
        "frozen 1"@.len() == 8 && "frozen 1"@[0] == 'f' && "frozen 1"@[7] == '1',
        "frozen 0"@.len() == 8 && "frozen 0"@[0] == 'f' && "frozen 0"@[7] == '0',
        "resource"@.len() == 8 && "resource"@[0] == 'r' && "resource"@[7] == 'e',
        "-thinking"@.len() == 9 && "-thinking"@[6] == 'i',
        "image/png"@.len() == 9 && "image/png"@[6] == 'p',
        "image/gif"@.len() == 9 && "image/gif"@[6] == 'g',
        "-thinking-"@.len() == 10 && "-thinking-"@[6] == 'i',
        "image/jpeg"@.len() == 10 && "image/jpeg"@[6] == 'j',
        "image/webp"@.len() == 10 && "image/webp"@[6] == 'w',
        "image/heic"@.len() == 10 && "image/heic"@[6] == 'h',
        "localImage"@.len() == 10 && "localImage"@[6] == 'm',
        "-extra-high"@.len() == 11,
        "allowed-tools"@.len() == 13,
        "application/octet-stream"@.len() == 24,
{
    reveal_strlit("-");
    reveal_strlit("1");
    reveal_strlit("0");
    reveal_strlit("low");
    reveal_strlit("max");
    reveal_strlit("png");
    reveal_strlit("jpg");
    reveal_strlit("gif");
    reveal_strlit("url");
    reveal_strlit("end");
    reveal_strlit("none");
    reveal_strlit("high");
    reveal_strlit("-low");
    reveal_strlit("-max");
    reveal_strlit("auto");
    reveal_strlit("jpeg");
    reveal_strlit("webp");
    reveal_strlit("heic");
    reveal_strlit("type");
    reveal_strlit("path");
    reveal_strlit("kind");
    reveal_strlit("data");
    reveal_strlit("user");
    reveal_strlit("name");
    reveal_strlit("text");
    reveal_strlit("xhigh");
    reveal_strlit("-fast");
    reveal_strlit("-high");
    reveal_strlit("-none");
    reveal_strlit("image");
    reveal_strlit("start");
    reveal_strlit("model");
    reveal_strlit("hooks");
    reveal_strlit("shell");
    reveal_strlit("medium");
    reveal_strlit("-xhigh");
    reveal_strlit("skills");
    reveal_strlit("origin");
    reveal_strlit("-medium");
    reveal_strlit("default");
    reveal_strlit("cursor-");
    reveal_strlit("project");
    reveal_strlit("content");
    reveal_strlit("mimeType");
    reveal_strlit("frozen 1");
    reveal_strlit("frozen 0");
    reveal_strlit("resource");
    reveal_strlit("-thinking");
    reveal_strlit("image/png");
    reveal_strlit("image/gif");
    reveal_strlit("-thinking-");
    reveal_strlit("image/jpeg");
    reveal_strlit("image/webp");
    reveal_strlit("image/heic");
    reveal_strlit("localImage");
    reveal_strlit("-extra-high");
    reveal_strlit("allowed-tools");
    reveal_strlit("application/octet-stream");
    assert("-"@.len() == 1 && "-"@[0] == '-');
    assert("1"@.len() == 1 && "1"@[0] == '1');
    assert("0"@.len() == 1 && "0"@[0] == '0');
    assert("low"@.len() == 3 && "low"@[0] == 'l');
    assert("max"@.len() == 3 && "max"@[0] == 'm');
    assert("png"@.len() == 3 && "png"@[0] == 'p');
    assert("jpg"@.len() == 3 && "jpg"@[0] == 'j');
    assert("gif"@.len() == 3 && "gif"@[0] == 'g');
    assert("url"@.len() == 3 && "url"@[0] == 'u');
    assert("end"@.len() == 3 && "end"@[0] == 'e');
    assert("none"@.len() == 4 && "none"@[3] == 'e' && "none"@[1] == 'o');
    assert("high"@.len() == 4 && "high"@[3] == 'h' && "high"@[1] == 'i');
    assert("-low"@.len() == 4 && "-low"@[3] == 'w' && "-low"@[1] == 'l');
    assert("-max"@.len() == 4 && "-max"@[3] == 'x' && "-max"@[1] == 'm');
    assert("auto"@.len() == 4 && "auto"@[3] == 'o' && "auto"@[1] == 'u');
    assert("jpeg"@.len() == 4 && "jpeg"@[3] == 'g' && "jpeg"@[1] == 'p');
    assert("webp"@.len() == 4 && "webp"@[3] == 'p' && "webp"@[1] == 'e');
    assert("heic"@.len() == 4 && "heic"@[3] == 'c' && "heic"@[1] == 'e');
    assert("type"@.len() == 4 && "type"@[3] == 'e' && "type"@[1] == 'y');
    assert("path"@.len() == 4 && "path"@[3] == 'h' && "path"@[1] == 'a');
    assert("kind"@.len() == 4 && "kind"@[3] == 'd' && "kind"@[1] == 'i');
    assert("data"@.len() == 4 && "data"@[3] == 'a' && "data"@[1] == 'a');
    assert("user"@.len() == 4 && "user"@[3] == 'r' && "user"@[1] == 's');
    assert("name"@.len() == 4 && "name"@[3] == 'e' && "name"@[1] == 'a');
    assert("text"@.len() == 4 && "text"@[3] == 't' && "text"@[1] == 'e');
    assert("xhigh"@.len() == 5 && "xhigh"@[3] == 'g' && "xhigh"@[0] == 'x');
    assert("-fast"@.len() == 5 && "-fast"@[3] == 's' && "-fast"@[0] == '-');
    assert("-high"@.len() == 5 && "-high"@[3] == 'g' && "-high"@[0] == '-');
    assert("-none"@.len() == 5 && "-none"@[3] == 'n' && "-none"@[0] == '-');
    assert("image"@.len() == 5 && "image"@[3] == 'g' && "image"@[0] == 'i');
    assert("start"@.len() == 5 && "start"@[3] == 'r' && "start"@[0] == 's');
    assert("model"@.len() == 5 && "model"@[3] == 'e' && "model"@[0] == 'm');
    assert("hooks"@.len() == 5 && "hooks"@[3] == 'k' && "hooks"@[0] == 'h');
    assert("shell"@.len() == 5 && "shell"@[3] == 'l' && "shell"@[0] == 's');
    assert("medium"@.len() == 6 && "medium"@[0] == 'm');
    assert("-xhigh"@.len() == 6 && "-xhigh"@[0] == '-');
    assert("skills"@.len() == 6 && "skills"@[0] == 's');
    assert("origin"@.len() == 6 && "origin"@[0] == 'o');
    assert("-medium"@.len() == 7 && "-medium"@[1] == 'm');
    assert("default"@.len() == 7 && "default"@[1] == 'e');
    assert("cursor-"@.len() == 7 && "cursor-"@[1] == 'u');
    assert("project"@.len() == 7 && "project"@[1] == 'r');
    assert("content"@.len() == 7 && "content"@[1] == 'o');
    assert("mimeType"@.len() == 8 && "mimeType"@[0] == 'm' && "mimeType"@[7] == 'e');
    assert("frozen 1"@.len() == 8 && "frozen 1"@[0] == 'f' && "frozen 1"@[7] == '1');
    assert("frozen 0"@.len() == 8 && "frozen 0"@[0] == 'f' && "frozen 0"@[7] == '0');
    assert("resource"@.len() == 8 && "resource"@[0] == 'r' && "resource"@[7] == 'e');
    assert("-thinking"@.len() == 9 && "-thinking"@[6] == 'i');
    assert("image/png"@.len() == 9 && "image/png"@[6] == 'p');
    assert("image/gif"@.len() == 9 && "image/gif"@[6] == 'g');
    assert("-thinking-"@.len() == 10 && "-thinking-"@[6] == 'i');
    assert("image/jpeg"@.len() == 10 && "image/jpeg"@[6] == 'j');
    assert("image/webp"@.len() == 10 && "image/webp"@[6] == 'w');
    assert("image/heic"@.len() == 10 && "image/heic"@[6] == 'h');
    assert("localImage"@.len() == 10 && "localImage"@[6] == 'm');
    assert("-extra-high"@.len() == 11);
    assert("allowed-tools"@.len() == 13);
    assert("application/octet-stream"@.len() == 24);
}
// Models.

/// The levels that a model can have, from none to the most.
pub proof fn levels_are_in_order()
    ensures
        level(0) == "none"@,
        level(1) == "low"@,
        level(2) == "medium"@,
        level(3) == "high"@,
        level(4) == "xhigh"@,
        level(5) == "max"@,
{
}

/// A plain name of a model.
pub open spec fn plain_name(id: Seq<char>) -> bool {
    &&& !finishes(id, "-fast"@)
    &&& !finishes(id, "-thinking"@)
    &&& found_from(id, "-thinking-"@, 0) is None
    &&& !holds(id, "-thinking-"@)
}

/// The level of a model is that which its name ends with, and the middle one where it names none.
pub proof fn names_tell_the_level(id: Seq<char>)
    requires
        plain_name(id),
    ensures
        ({
            let v = variant(id);
            let extra = finishes(id, "-extra-high"@);
            &&& !v.fast && !v.thinking
            &&& extra ==> v.effort == "xhigh"@ && v.family == id.take(id.len() - 11)
            &&& !extra && finishes(id, "-medium"@) ==> v.effort == "medium"@ && v.family == id.take(
                id.len() - 7,
            )
            &&& finishes(id, "-low"@) ==> v.effort == "low"@ && v.family == id.take(id.len() - 4)
            &&& finishes(id, "-max"@) ==> v.effort == "max"@ && v.family == id.take(id.len() - 4)
            &&& finishes(id, "-none"@) ==> v.effort == "none"@ && v.family == id.take(id.len() - 5)
            &&& finishes(id, "-xhigh"@) ==> v.effort == "xhigh"@ && v.family == id.take(id.len() - 6)
            &&& !extra && finishes(id, "-high"@) && !finishes(id, "-xhigh"@) ==> v.effort == "high"@
                && v.family == id.take(id.len() - 5)
            &&& !extra && !finishes(id, "-medium"@) && !finishes(id, "-low"@) && !finishes(id, "-max"@)
                && !finishes(id, "-none"@) && !finishes(id, "-xhigh"@) && !finishes(id, "-high"@)
                ==> v.effort == "medium"@ && v.family == id
        }),
{
    choice_words();
    reveal_strlit("-extra-high");
    reveal_strlit("-medium");
    reveal_strlit("-xhigh");
    reveal_strlit("-high");
    reveal_strlit("-low");
    reveal_strlit("-max");
    reveal_strlit("-none");
    endings_differ(id, "-low"@, "-extra-high"@);
    endings_differ(id, "-low"@, "-medium"@);
    endings_differ(id, "-low"@, "-xhigh"@);
    endings_differ(id, "-low"@, "-high"@);
    endings_differ(id, "-max"@, "-extra-high"@);
    endings_differ(id, "-max"@, "-medium"@);
    endings_differ(id, "-max"@, "-xhigh"@);
    endings_differ(id, "-max"@, "-high"@);
    endings_differ(id, "-max"@, "-low"@);
    endings_differ(id, "-none"@, "-extra-high"@);
    endings_differ(id, "-none"@, "-medium"@);
    endings_differ(id, "-none"@, "-xhigh"@);
    endings_differ(id, "-none"@, "-high"@);
    endings_differ(id, "-none"@, "-low"@);
    endings_differ(id, "-none"@, "-max"@);
    endings_differ(id, "-xhigh"@, "-medium"@);
    endings_differ(id, "-xhigh"@, "-extra-high"@);
    endings_differ(id, "-high"@, "-medium"@);
}

/// Texts do not end with two endings that differ.
proof fn endings_differ(id: Seq<char>, a: Seq<char>, b: Seq<char>)
    requires
        a.len() > 0,
        b.len() > 0,
    ensures
        a.last() != b.last() ==> !(finishes(id, a) && finishes(id, b)),
        a.len() >= 2 && b.len() >= 2 && a[a.len() - 2] != b[b.len() - 2] ==> !(finishes(id, a)
            && finishes(id, b)),
        a.len() >= 6 && b.len() >= 6 && a[a.len() - 5] != b[b.len() - 5] ==> !(finishes(id, a)
            && finishes(id, b)),
{
    if finishes(id, a) && finishes(id, b) {
        assert(id[id.len() - 1] == a.last());
        assert(id[id.len() - 1] == b.last());
        if a.len() >= 2 && b.len() >= 2 {
            assert(id[id.len() - 2] == a[a.len() - 2]);
            assert(id[id.len() - 2] == b[b.len() - 2]);
        }
        if a.len() >= 6 && b.len() >= 6 {
            assert(id[id.len() - 5] == a[a.len() - 5]);
            assert(id[id.len() - 5] == b[b.len() - 5]);
        }
    }
}

/// A family is shown by its name; the one that chooses itself is the default.
pub proof fn families_are_shown(rest: Seq<char>)
    ensures
        shown_name("auto"@) == "default"@,
        shown_name("cursor-"@ + rest) == rest,
        asked_model("auto"@) == "default"@,
{
    choice_words();
    reveal_strlit("cursor-");
    reveal_strlit("auto");
    let all = "cursor-"@ + rest;
    assert(all.len() >= 7);
    assert(all.subrange(0, 7) =~= "cursor-"@);
    assert(all.take(7) =~= "cursor-"@);
    assert(all.subrange(7, all.len() as int) =~= rest);
    assert(all.skip(7) =~= rest);
}

/// The variant that is chosen for a model and a level is one of the account's, of that model and at that level;
/// a fast one is chosen only where there is no other.
pub proof fn chosen_variants_are_right(ids: Seq<Seq<char>>, name: Seq<char>, wanted: Seq<char>, other: int)
    requires
        resolved(ids, name, Some(wanted)) is Some,
    ensures
        ({
            let id = resolved(ids, name, Some(wanted))->0;
            &&& ids.contains(id)
            &&& shown_name(variant(id).family) == name
            &&& level_of(id, thinks(ids, name)) == wanted
            &&& variant(id).fast && 0 <= other < ids.len() && shown_name(variant(ids[other]).family)
                == name && level_of(ids[other], thinks(ids, name)) == wanted ==> variant(
                ids[other],
            ).fast
        }),
{
    let thinking = thinks(ids, name);
    served_is_right(ids, name, thinking, wanted, false);
    served_is_right(ids, name, thinking, wanted, true);
    if 0 <= other < ids.len() {
        slow_is_served(ids, name, thinking, wanted, other);
    }
}

proof fn served_is_right(
    ids: Seq<Seq<char>>,
    name: Seq<char>,
    thinking: bool,
    wanted: Seq<char>,
    fast: bool,
)
    ensures
        served(ids, name, thinking, wanted, fast) matches Some(id) ==> ids.contains(id) && shown_name(
            variant(id).family,
        ) == name && level_of(id, thinking) == wanted && variant(id).fast == fast,
    decreases ids.len(),
{
    if ids.len() > 0 {
        served_is_right(ids.drop_last(), name, thinking, wanted, fast);
        if let Some(id) = served(ids, name, thinking, wanted, fast) {
            if ids.drop_last().contains(id) {
                let i = choose|i: int| 0 <= i < ids.drop_last().len() && ids.drop_last()[i] == id;
                assert(ids[i] == id);
            } else {
                assert(ids[ids.len() - 1] == id);
            }
        }
    }
}

proof fn slow_is_served(
    ids: Seq<Seq<char>>,
    name: Seq<char>,
    thinking: bool,
    wanted: Seq<char>,
    at: int,
)
    requires
        0 <= at < ids.len(),
    ensures
        shown_name(variant(ids[at]).family) == name && level_of(ids[at], thinking) == wanted && !variant(
            ids[at],
        ).fast ==> served(ids, name, thinking, wanted, false) is Some,
    decreases ids.len(),
{
    if at < ids.len() - 1 {
        slow_is_served(ids.drop_last(), name, thinking, wanted, at);
        assert(ids.drop_last()[at] == ids[at]);
    }
}

// Files.

/// An image is known by the ending of its name, in whatever case; anything else is bytes.
pub proof fn images_are_known_by_their_ending(path: Seq<char>, ending: Seq<char>)
    requires
        extension(path) == Some(ending),
    ensures
        lowered(ending) == "png"@ ==> mime_type(path) == "image/png"@,
        lowered(ending) == "jpg"@ || lowered(ending) == "jpeg"@ ==> mime_type(path) == "image/jpeg"@,
        lowered(ending) == "gif"@ ==> mime_type(path) == "image/gif"@,
        lowered(ending) == "webp"@ ==> mime_type(path) == "image/webp"@,
        lowered(ending) == "heic"@ ==> mime_type(path) == "image/heic"@,
        lowered(ending) != "png"@ && lowered(ending) != "jpg"@ && lowered(ending) != "jpeg"@ && lowered(
            ending,
        ) != "gif"@ && lowered(ending) != "webp"@ && lowered(ending) != "heic"@ ==> mime_type(path)
            == "application/octet-stream"@,
{
    choice_words();
}

/// The sixty-four digits are the letters, the figures, and two signs.
pub proof fn digits_are_sixty_four(n: int)
    ensures
        0 <= n < 26 ==> base64_digit(n) as int == 'A' as int + n,
        26 <= n < 52 ==> base64_digit(n) as int == 'a' as int + (n - 26),
        52 <= n < 62 ==> base64_digit(n) as int == '0' as int + (n - 52),
        base64_digit(62) == '+',
        base64_digit(63) == '/',
{
}

/// An image is sent with its kind where it is not too large, and takes so much of the room.
pub proof fn images_take_their_room(path: Seq<char>, bytes: Seq<u8>, remaining: int)
    ensures
        bytes.len() > 10485760 ==> image_placed(path, bytes, remaining) is Err,
        image_placed(path, bytes, remaining) matches Ok((image, rest)) ==> (image.field("type"@)
            == Data::Text("image"@) && image.field("mimeType"@) == Data::Text(mime_type(path))
            && image.field("data"@) == Data::Text(super::files::base64(bytes)) && 0 <= rest < remaining
            && bytes.len() <= 10485760),
{
    choice_words();
}

/// The images of a message are its image parts and its attached images, each by its path.
pub proof fn images_are_found(part: Data, path: Seq<char>)
    ensures
        part.field("type"@) == Data::Text("image"@) && part.field("path"@) == Data::Text(path)
            ==> part_image(part) == Some(path),
        part.field("type"@) == Data::Text("localImage"@) && part.field("path"@) == Data::Text(path)
            ==> part_image(part) == Some(path),
        part.field("type"@) == Data::Text("text"@) ==> part_image(part) is None,
        part.field("kind"@) == Data::Text("image"@) && part.field("path"@) == Data::Text(path)
            ==> attached_image(part) == Some(path),
        part.field("kind"@) != Data::Text("image"@) ==> attached_image(part) is None,
{
    choice_words();
}

// Processes.

/// A group of processes is told to freeze or to thaw, and is looked at until it has; who is not frozen is not
/// thawed.
pub proof fn groups_freeze_and_thaw(paused: bool, frozen: bool, events: Seq<char>)
    ensures
        freezing(paused, true, FreezingView::Asked) == (paused, FreezeStepView::Tell("1"@)),
        freezing(true, false, FreezingView::Asked) == (true, FreezeStepView::Tell("0"@)),
        freezing(false, false, FreezingView::Asked) == (false, FreezeStepView::Done),
        freezing(paused, true, FreezingView::Told) == (true, FreezeStepView::Look),
        lines(events).contains("frozen 1"@) ==> freezing(true, true, FreezingView::Seen(events)) == (
            true,
            FreezeStepView::Done,
        ),
        lines(events).contains("frozen 0"@) ==> freezing(true, false, FreezingView::Seen(events)) == (
            false,
            FreezeStepView::Done,
        ),
        !lines(events).contains("frozen 0"@) ==> freezing(true, false, FreezingView::Seen(events)) == (
            true,
            FreezeStepView::Look,
        ),
        freezing(paused, frozen, FreezingView::Late).1 is Fail,
{
}

/// A process is gone where it is not listed, or is only left over; where it could not be asked for it is not
/// known.
pub proof fn presence_is_known(listing: Seq<char>, error: bool)
    ensures
        listing.len() == 0 ==> presence_of(Some(1i32), listing, false) == Presence::Gone,
        listing.len() > 0 ==> presence_of(Some(1i32), listing, error) == Presence::Unknown,
        presence_of(None, listing, error) == Presence::Unknown,
        trimmed_start(listing).len() > 0 && trimmed_start(listing)[0] == 'Z' ==> presence_of(
            Some(0i32),
            listing,
            error,
        ) == Presence::Gone,
        trimmed_start(listing).len() == 0 || trimmed_start(listing)[0] != 'Z' ==> presence_of(
            Some(0i32),
            listing,
            error,
        ) == Presence::Running,
{
}

/// An answer is waited for as long as the work may run; time in which it is paused does not count.
pub proof fn answers_are_waited_for(p: Patience, ms: u64, paused: bool)
    ensures
        waited(p, Wait::Answered) == (p, VerdictView::Answer),
        waited(p, Wait::Lost).1 is Fail,
        waited(p, Wait::OwnerLost).1 is Fail,
        !p.paused && p.remaining > ms ==> waited(p, Wait::Passed { ms }) == (
            Patience { remaining: (p.remaining - ms) as u64, ..p },
            VerdictView::Wait { limit: Some((p.remaining - ms) as u64) },
        ),
        !p.paused && p.remaining <= ms ==> waited(p, Wait::Passed { ms }).1 is Fail,
        p.paused ==> waited(p, Wait::Passed { ms }) == (p, VerdictView::Wait { limit: None }),
        waited(p, Wait::Changed { paused, ms }).0.paused == paused,
        !p.paused && p.remaining >= ms ==> waited(p, Wait::Changed { paused, ms }).0.remaining
            == p.remaining - ms,
        p.paused ==> waited(p, Wait::Changed { paused, ms }).0.remaining == p.remaining,
        !p.grouped && !p.paused && p.remaining <= ms ==> (waited(p, Wait::Passed { ms }).1 matches
            VerdictView::Fail(f) && f.kind == FaultKind::TimedOut),
{
}

// Skills.

/// A skill that is selected brings its instructions once, with the folder that they are relative to.
pub proof fn skills_are_loaded_once(
    d: Draft,
    name: Seq<char>,
    origin: Seq<char>,
    directory: Seq<char>,
    body: Seq<char>,
    product: Seq<char>,
)
    ensures
        ({
            let skills = seq![SkillView { name, origin, found: Ok((directory, body)) }];
            let text = "Skill: /"@ + name + "\nBase directory: "@ + directory + "\n\n"@ + body;
            let next = chosen(d, skills, name, origin, product);
            &&& d.chosen.contains((name, origin)) ==> next == Ok::<Draft, FaultView>(d)
            &&& !d.chosen.contains((name, origin)) && !d.loaded.contains(directory) && byte_len(text)
                <= d.remaining ==> (next matches Ok(e) && e.instructions == d.instructions.push(text)
                && e.loaded == d.loaded.push(directory) && e.chosen == d.chosen.push((name, origin))
                && e.remaining == d.remaining - byte_len(text))
            &&& !d.chosen.contains((name, origin)) && d.loaded.contains(directory) ==> (next matches
                Ok(e) && e.instructions == d.instructions)
            &&& !d.chosen.contains((name, origin)) && !d.loaded.contains(directory) && byte_len(text)
                > d.remaining ==> next is Err
        }),
        !d.chosen.contains((name, origin)) ==> chosen(d, Seq::empty(), name, origin, product) is Err,
{
    reveal_with_fuel(super::claude_skills::looked_up, 2);
    let skills = seq![SkillView { name, origin, found: Ok::<_, FaultView>((directory, body)) }];
    assert(skills[0].name == name);
}

/// The tag of a skill in a text becomes its name, and what stands before it stays.
pub proof fn tags_become_names(
    p: Part,
    skills: Seq<SkillView>,
    text: Seq<char>,
    mention: Data,
    product: Seq<char>,
    name: Seq<char>,
    after: Part,
)
    requires
        mention.field("resource"@).field("name"@) == Data::Text(name),
        mentioned(p, skills, text, mention, product) == Ok::<Part, FaultView>(after),
        0 <= p.cursor <= text.len(),
    ensures
        exists|start: int, end: int|
            p.cursor <= start < end && #[trigger] text.subrange(start, end) == "/"@ + name
                && after.rendered == p.rendered + text.subrange(p.cursor, start) + name && after.cursor
                == end,
{
    let (start, end) = super::claude_skills::span(text, mention)->0;
    assert(text.subrange(start, end) == "/"@ + name);
}

/// Instructions with settings or expansions of the harness, and empty ones, are refused; others are taken as
/// they are.
pub proof fn instructions_are_taken_as_they_are(body: Seq<char>, name: Seq<char>, product: Seq<char>, length: u64)
    ensures
        body_checked(body, name, product) matches Ok(text) ==> text == body && !blank(body) && !holds(
            body,
            "!`"@,
        ) && !holds(body, "$ARGUMENTS"@),
        blank(body) ==> body_checked(body, name, product) is Err,
        holds(body, "!`"@) || holds(body, "$ARGUMENTS"@) ==> body_checked(body, name, product) is Err,
        !blank(body) && !holds(body, "!`"@) && !holds(body, "$ARGUMENTS"@) && !holds(
            body,
            "${CLAUDE_"@,
        ) ==> body_checked(body, name, product) == Ok::<Seq<char>, FaultView>(body),
        native_setting("allowed-tools"@) && native_setting("model"@) && native_setting("hooks"@)
            && native_setting("shell"@),
        !native_setting("name"@),
        length > MAX_LINE ==> instructions_in(length, body, name, product) is Err,
{
    choice_words();
    reveal_strlit("disallowed-tools");
    reveal_strlit("effort");
    reveal_strlit("context");
    reveal_strlit("agent");
    reveal_strlit("background");
    reveal_strlit("arguments");
    reveal_strlit("user-invocable");
    reveal_strlit("name");
    assert("name"@[0] == 'n');
    assert("model"@[0] == 'm');
    assert("hooks"@.len() == 5);
    assert("shell"@.len() == 5);
}

/// The skills of the user lie in the home of the harness; those of a project in its folders, up to the root of
/// the repository. There are no others.
pub proof fn skills_lie_where_they_belong(
    home: Seq<char>,
    origin: Seq<char>,
    place: Seq<char>,
    folders: Seq<Folder>,
)
    ensures
        skill_roots(home, "user"@, place, folders) matches Ok(roots) && roots.len() == 1 && roots[0]
            == super::files::below(home, "skills"@),
        folders.len() > 0 && folders[0].repository ==> (skill_roots(home, "project"@, place, folders)
            matches Ok(roots) && roots.len() == 1 && roots[0] == super::files::below(
            folders[0].path@,
            place,
        )),
        origin != "user"@ && origin != "project"@ ==> skill_roots(home, origin, place, folders) is Err,
{
    choice_words();
}

} // verus!
