//! Files of the agent: images that go with a prompt, and files that are opened on its behalf.
use crate::fault::{other, Fault, FaultKind, FaultView};
use crate::json::{object, values, Data, Json};
use crate::text::{
    byte_len, chars_of, concat, concat3, deep, ends_with, finishes, join, joined, lowered, opt,
    push_char, push_string, same, size, split, split_chars, string_of, to_lower, views,
};
use crate::wire::{bytes_read, parse_bytes, write_json, written};
use vstd::prelude::*;
use vstd::slice::slice_subrange;

verus! {

/// The largest image, in bytes.
pub const IMAGE_BYTES: usize = 10485760;

// Base64.

/// The digits of base64.
pub open spec fn base64_digit(n: int) -> char {
    if n < 26 {
        (65 + n) as char
    } else if n < 52 {
        (97 + n - 26) as char
    } else if n < 62 {
        (48 + n - 52) as char
    } else if n == 62 {
        '+'
    } else {
        '/'
    }
}

/// The four digits of up to three bytes. Digits that no byte reaches are filled up.
pub open spec fn base64_group(bytes: Seq<u8>) -> Seq<char> {
    let b = if bytes.len() > 1 {
        bytes[1] as int
    } else {
        0
    };
    let c = if bytes.len() > 2 {
        bytes[2] as int
    } else {
        0
    };
    let n = bytes[0] * 65536 + b * 256 + c;
    seq![
        base64_digit(n / 262144),
        base64_digit(n / 4096 % 64),
        if bytes.len() > 1 {
            base64_digit(n / 64 % 64)
        } else {
            '='
        },
        if bytes.len() > 2 {
            base64_digit(n % 64)
        } else {
            '='
        },
    ]
}

/// Bytes in base64.
pub open spec fn base64(bytes: Seq<u8>) -> Seq<char>
    decreases bytes.len(),
{
    if bytes.len() == 0 {
        Seq::empty()
    } else if bytes.len() <= 3 {
        base64_group(bytes)
    } else {
        base64_group(bytes.take(3)) + base64(bytes.subrange(3, bytes.len() as int))
    }
}

/// Every three bytes become four digits.
pub proof fn base64_length(bytes: Seq<u8>)
    ensures
        base64(bytes).len() == (bytes.len() + 2) / 3 * 4,
    decreases bytes.len(),
{
    if bytes.len() > 3 {
        base64_length(bytes.subrange(3, bytes.len() as int));
    }
}

fn digit_of(n: u32) -> (r: char)
    requires
        n < 64,
    ensures
        r == base64_digit(n as int),
{
    if n < 26 {
        (65 + n as u8) as char
    } else if n < 52 {
        (97 + (n as u8 - 26)) as char
    } else if n < 62 {
        (48 + (n as u8 - 52)) as char
    } else if n == 62 {
        '+'
    } else {
        '/'
    }
}

fn push_group(out: &mut String, a: u8, b: Option<u8>, c: Option<u8>, Ghost(group): Ghost<Seq<u8>>)
    requires
        1 <= group.len() <= 3,
        group[0] == a,
        match b {
            Some(b) => group.len() > 1 && group[1] == b,
            None => group.len() == 1,
        },
        match c {
            Some(c) => group.len() > 2 && group[2] == c,
            None => group.len() < 3,
        },
    ensures
        final(out)@ == old(out)@ + base64_group(group),
{
    let ghost was = out@;
    let second: u32 = match b {
        Some(b) => b as u32,
        None => 0,
    };
    let third: u32 = match c {
        Some(c) => c as u32,
        None => 0,
    };
    let n: u32 = (a as u32) * 65536 + second * 256 + third;
    push_char(out, digit_of(n / 262144));
    push_char(out, digit_of(n / 4096 % 64));
    push_char(
        out,
        if b.is_some() {
            digit_of(n / 64 % 64)
        } else {
            '='
        },
    );
    push_char(
        out,
        if c.is_some() {
            digit_of(n % 64)
        } else {
            '='
        },
    );
    assert(out@ =~= was + base64_group(group));
}

/// Bytes in base64.
pub fn base64_encode(bytes: &[u8]) -> (r: String)
    ensures
        r@ == base64(bytes@),
{
    let mut out = String::new();
    let mut i: usize = 0;
    assert(bytes@.subrange(0, bytes@.len() as int) =~= bytes@);
    assert(out@ + base64(bytes@) =~= base64(bytes@));
    while i < bytes.len()
        invariant
            i <= bytes.len(),
            out@ + base64(bytes@.subrange(i as int, bytes@.len() as int)) == base64(bytes@),
        decreases bytes.len() - i,
    {
        let ghost rest = bytes@.subrange(i as int, bytes@.len() as int);
        let ghost was = out@;
        let left = bytes.len() - i;
        if left > 3 {
            push_group(
                &mut out,
                bytes[i],
                Some(bytes[i + 1]),
                Some(bytes[i + 2]),
                Ghost(rest.take(3)),
            );
            assert(rest.subrange(3, rest.len() as int) =~= bytes@.subrange(
                i + 3,
                bytes@.len() as int,
            ));
            assert(was + (base64_group(rest.take(3)) + base64(
                rest.subrange(3, rest.len() as int),
            )) =~= out@ + base64(bytes@.subrange(i + 3, bytes@.len() as int)));
            i += 3;
        } else {
            let b: Option<u8> = if left > 1 {
                Some(bytes[i + 1])
            } else {
                None
            };
            let c: Option<u8> = if left > 2 {
                Some(bytes[i + 2])
            } else {
                None
            };
            push_group(&mut out, bytes[i], b, c, Ghost(rest));
            i = bytes.len();
            assert(bytes@.subrange(i as int, bytes@.len() as int) =~= Seq::empty());
            assert(out@ + Seq::<char>::empty() =~= out@);
        }
    }
    assert(bytes@.subrange(i as int, bytes@.len() as int) =~= Seq::empty());
    assert(out@ + Seq::<char>::empty() =~= out@);
    out
}

// Kinds of images.

/// A path below another.
pub open spec fn below(base: Seq<char>, rest: Seq<char>) -> Seq<char> {
    if base.len() == 0 || finishes(base, "/"@) {
        base + rest
    } else {
        base + "/"@ + rest
    }
}

/// A path below another.
pub fn under(base: &str, rest: &str) -> (r: String)
    ensures
        r@ == below(base@, rest@),
{
    if chars_of(base).len() == 0 || ends_with(base, "/") {
        concat(base, rest)
    } else {
        concat3(base, "/", rest)
    }
}

/// The parts of a path that count, from the pieces between its slashes: not the empty ones, and a
/// single dot only where it comes first.
pub open spec fn parts_that_count(pieces: Seq<Seq<char>>) -> Seq<Seq<char>>
    decreases pieces.len(),
{
    if pieces.len() == 0 {
        pieces
    } else {
        let before = parts_that_count(pieces.drop_last());
        if pieces.last().len() == 0 || (pieces.last() == "."@ && pieces.len() > 1) {
            before
        } else {
            before.push(pieces.last())
        }
    }
}

/// The components of a path. Two paths are the same where they have the same components.
pub open spec fn components(path: Seq<char>) -> Seq<Seq<char>> {
    let parts = parts_that_count(split(path, '/'));
    if path.len() > 0 && path[0] == '/' {
        seq!["/"@] + parts
    } else {
        parts
    }
}

/// The components of a path.
pub fn components_of(path: &str) -> (r: Vec<String>)
    ensures
        views(r@) == components(path@),
{
    let chars = chars_of(path);
    let pieces = split_chars(chars.as_slice(), '/');
    let ghost all = split(path@, '/');
    let ghost root = if path@.len() > 0 && path@[0] == '/' {
        seq!["/"@]
    } else {
        Seq::<Seq<char>>::empty()
    };
    let mut out: Vec<String> = Vec::new();
    if chars.len() > 0 && chars[0] == '/' {
        push_string(&mut out, "/");
    }
    assert(views(out@) =~= root);
    let mut i: usize = 0;
    assert(all.take(0) =~= Seq::empty());
    assert(root + parts_that_count(all.take(0)) =~= root);
    while i < pieces.len()
        invariant
            i <= pieces.len(),
            deep(pieces@) == all,
            views(out@) == root + parts_that_count(all.take(i as int)),
        decreases pieces.len() - i,
    {
        let ghost now = all.take(i + 1);
        assert(now.drop_last() =~= all.take(i as int));
        assert(now.last() == pieces@[i as int]@);
        let piece = string_of(pieces[i].as_slice());
        if pieces[i].len() > 0 && !(same(piece.as_str(), ".") && i > 0) {
            push_string(&mut out, piece.as_str());
        }
        assert(views(out@) =~= root + parts_that_count(now));
        i += 1;
    }
    assert(all.take(i as int) =~= all);
    assert(views(out@) =~= components(path@));
    out
}

/// Whether two lists hold the same texts in the same order.
pub fn same_texts(a: &Vec<String>, b: &Vec<String>) -> (r: bool)
    ensures
        r == (views(a@) == views(b@)),
{
    if a.len() != b.len() {
        assert(views(a@).len() != views(b@).len());
        return false;
    }
    let mut i: usize = 0;
    while i < a.len()
        invariant
            i <= a.len(),
            a.len() == b.len(),
            forall|j: int| 0 <= j < i ==> views(a@)[j] == #[trigger] views(b@)[j],
        decreases a.len() - i,
    {
        if !same(a[i].as_str(), b[i].as_str()) {
            assert(views(a@)[i as int] != views(b@)[i as int]);
            return false;
        }
        assert(views(a@)[i as int] == views(b@)[i as int]);
        i += 1;
    }
    assert(views(a@) =~= views(b@));
    true
}

/// The last part of a path that names something.
pub open spec fn last_name(parts: Seq<Seq<char>>) -> Option<Seq<char>>
    decreases parts.len(),
{
    if parts.len() == 0 {
        None
    } else if parts.last().len() == 0 || parts.last() == "."@ {
        last_name(parts.drop_last())
    } else if parts.last() == ".."@ {
        None
    } else {
        Some(parts.last())
    }
}

/// The name of what a path leads to.
pub fn file_name(path: &str) -> (r: Option<String>)
    ensures
        opt(r) == last_name(split(path@, '/')),
{
    let chars = chars_of(path);
    let parts = split_chars(chars.as_slice(), '/');
    let ghost all = split(path@, '/');
    let mut n: usize = parts.len();
    assert(all.take(n as int) =~= all);
    while n > 0
        invariant
            n <= parts.len(),
            deep(parts@) == all,
            last_name(all) == last_name(all.take(n as int)),
            all == split(path@, '/'),
        decreases n,
    {
        let ghost part = all.take(n as int);
        assert(part.last() == parts@[n - 1]@);
        assert(part.drop_last() =~= all.take(n - 1));
        let name = string_of(parts[n - 1].as_slice());
        if parts[n - 1].len() == 0 || same(name.as_str(), ".") {
            n -= 1;
        } else {
            if same(name.as_str(), "..") {
                return None;
            }
            return Some(name);
        }
    }
    None
}

/// The place of the last dot in a name.
pub open spec fn last_dot(name: Seq<char>) -> Option<int>
    decreases name.len(),
{
    if name.len() == 0 {
        None
    } else if name.last() == '.' {
        Some(name.len() - 1)
    } else {
        last_dot(name.drop_last())
    }
}

/// The ending of the name of a file: what follows its last dot. A dot that begins a name does not
/// count.
pub open spec fn extension(path: Seq<char>) -> Option<Seq<char>> {
    match last_name(split(path, '/')) {
        None => None,
        Some(name) => match last_dot(name) {
            None => None,
            Some(i) => if i <= 0 {
                None
            } else {
                Some(name.subrange(i + 1, name.len() as int))
            },
        },
    }
}

/// The type of an image, by the ending of its name.
pub open spec fn mime_type(path: Seq<char>) -> Seq<char> {
    match extension(path) {
        None => "application/octet-stream"@,
        Some(ending) => {
            let e = lowered(ending);
            if e == "png"@ {
                "image/png"@
            } else if e == "jpg"@ || e == "jpeg"@ {
                "image/jpeg"@
            } else if e == "gif"@ {
                "image/gif"@
            } else if e == "webp"@ {
                "image/webp"@
            } else if e == "heic"@ {
                "image/heic"@
            } else {
                "application/octet-stream"@
            }
        },
    }
}

fn find_extension(path: &str) -> (r: Option<String>)
    ensures
        opt(r) == extension(path@),
{
    let name = match file_name(path) {
        Some(name) => name,
        None => {
            return None;
        },
    };
    let chars = chars_of(name.as_str());
    let text = chars.as_slice();
    let ghost whole = name@;
    let mut i: usize = text.len();
    assert(whole.take(i as int) =~= whole);
    while i > 0
        invariant
            i <= text.len(),
            text@ == whole,
            last_dot(whole) == last_dot(whole.take(i as int)),
            last_name(split(path@, '/')) == Some(whole),
        decreases i,
    {
        let ghost head = whole.take(i as int);
        assert(head.last() == whole[i - 1]);
        assert(head.drop_last() =~= whole.take(i - 1));
        if text[i - 1] == '.' {
            if i == 1 {
                return None;
            }
            return Some(string_of(slice_subrange(text, i, text.len())));
        }
        i -= 1;
    }
    None
}

/// The type of an image, by the ending of its name.
pub fn mime(path: &str) -> (r: &'static str)
    ensures
        r@ == mime_type(path@),
{
    match find_extension(path) {
        None => "application/octet-stream",
        Some(ending) => {
            let e = to_lower(ending.as_str());
            if same(e.as_str(), "png") {
                "image/png"
            } else if same(e.as_str(), "jpg") || same(e.as_str(), "jpeg") {
                "image/jpeg"
            } else if same(e.as_str(), "gif") {
                "image/gif"
            } else if same(e.as_str(), "webp") {
                "image/webp"
            } else if same(e.as_str(), "heic") {
                "image/heic"
            } else {
                "application/octet-stream"
            }
        },
    }
}

// Images of a prompt.

/// The image that a part of a prompt names.
pub open spec fn part_image(part: Data) -> Option<Seq<char>> {
    if part.field("type"@).is_text("image"@) || part.field("type"@).is_text("localImage"@) {
        crate::text::first_text(part.field("path"@).as_text(), part.field("url"@).as_text())
    } else {
        None
    }
}

/// The image that an attachment is.
pub open spec fn attached_image(attachment: Data) -> Option<Seq<char>> {
    if attachment.field("kind"@).is_text("image"@) {
        attachment.field("path"@).as_text()
    } else {
        None
    }
}

/// The images of parts.
pub open spec fn part_images(parts: Seq<Data>) -> Seq<Seq<char>>
    decreases parts.len(),
{
    if parts.len() == 0 {
        Seq::empty()
    } else {
        match part_image(parts.last()) {
            Some(path) => part_images(parts.drop_last()).push(path),
            None => part_images(parts.drop_last()),
        }
    }
}

/// The images of attachments, after others.
pub open spec fn attached_images(before: Seq<Seq<char>>, attachments: Seq<Data>) -> Seq<Seq<char>>
    decreases attachments.len(),
{
    if attachments.len() == 0 {
        before
    } else {
        let list = attached_images(before, attachments.drop_last());
        match attached_image(attachments.last()) {
            Some(path) => list.push(path),
            None => list,
        }
    }
}

/// The images of a prompt, in the order in which they are sent.
pub fn image_paths(input: &Json) -> (r: Vec<String>)
    ensures
        views(r@) == attached_images(
            part_images(input@.field("content"@).items()),
            input@.field("attachments"@).items(),
        ),
{
    let parts = input.field("content").items();
    let ghost all = values(parts@);
    let mut out: Vec<String> = Vec::new();
    let mut i: usize = 0;
    assert(all.take(0) =~= Seq::empty());
    assert(views(out@) =~= Seq::<Seq<char>>::empty());
    while i < parts.len()
        invariant
            i <= parts.len(),
            all == values(parts@),
            views(out@) == part_images(all.take(i as int)),
        decreases parts.len() - i,
    {
        assert(all.take(i + 1).drop_last() =~= all.take(i as int));
        assert(all.take(i + 1).last() == parts@[i as int]@);
        let part: &Json = &parts[i];
        if part.field_is("type", "image") || part.field_is("type", "localImage") {
            let path: Option<&str> = match part.field_text("path") {
                Some(path) => Some(path),
                None => part.field_text("url"),
            };
            if let Some(path) = path {
                push_string(&mut out, path);
            }
        }
        i += 1;
    }
    assert(all.take(i as int) =~= all);
    let ghost before = views(out@);
    let attachments = input.field("attachments").items();
    let ghost more = values(attachments@);
    let mut j: usize = 0;
    assert(more.take(0) =~= Seq::empty());
    while j < attachments.len()
        invariant
            j <= attachments.len(),
            more == values(attachments@),
            views(out@) == attached_images(before, more.take(j as int)),
        decreases attachments.len() - j,
    {
        assert(more.take(j + 1).drop_last() =~= more.take(j as int));
        assert(more.take(j + 1).last() == attachments@[j as int]@);
        if attachments[j].field_is("kind", "image") {
            if let Some(path) = attachments[j].field_text("path") {
                push_string(&mut out, path);
            }
        }
        j += 1;
    }
    assert(more.take(j as int) =~= more);
    out
}

/// An image as it is sent.
pub open spec fn image_data(path: Seq<char>, bytes: Seq<u8>) -> Data {
    Data::Object(
        map![
            "type"@ => Data::Text("image"@),
            "data"@ => Data::Text(base64(bytes)),
            "mimeType"@ => Data::Text(mime_type(path))
        ],
    )
}

/// An image as it is sent, and what is left of the room after it.
pub open spec fn image_placed(path: Seq<char>, bytes: Seq<u8>, remaining: int) -> Result<
    (Data, int),
    FaultView,
> {
    let image = image_data(path, bytes);
    if bytes.len() > IMAGE_BYTES {
        Err(other("image exceeds the attachment size limit"@))
    } else if byte_len(written(image)) + 1 > remaining {
        Err(other("images exceed the native request size limit"@))
    } else {
        Ok((image, remaining - (byte_len(written(image)) + 1)))
    }
}

/// An image as it is sent, and what is left of the room after it. Images that are too large, or do
/// not fit any more, are refused.
pub fn place_image(path: &str, bytes: &[u8], remaining: usize) -> (r: Result<(Json, usize), Fault>)
    ensures
        match r {
            Ok((image, left)) => image_placed(path@, bytes@, remaining as int) == Ok::<
                (Data, int),
                FaultView,
            >((image@, left as int)),
            Err(f) => image_placed(path@, bytes@, remaining as int) == Err::<
                (Data, int),
                FaultView,
            >(f@),
        },
{
    if bytes.len() > IMAGE_BYTES {
        return Err(Fault::other("image exceeds the attachment size limit"));
    }
    let image = Json::Object(
        object().with_text("type", "image").with_text(
            "data",
            base64_encode(bytes).as_str(),
        ).with_text("mimeType", mime(path)),
    );
    let used = size(write_json(&image).as_str());
    if used >= remaining {
        return Err(Fault::other("images exceed the native request size limit"));
    }
    Ok((image, remaining - used - 1))
}

// Files that are opened on behalf of the agent.

/// The text of a path with some components.
pub open spec fn path_text(parts: Seq<Seq<char>>) -> Seq<char> {
    if parts.len() > 0 && parts[0] == "/"@ {
        "/"@ + joined(parts.skip(1), "/"@)
    } else {
        joined(parts, "/"@)
    }
}

fn texts_between(parts: &Vec<String>, from: usize, to: usize) -> (r: Vec<String>)
    requires
        from <= to <= parts@.len(),
    ensures
        views(r@) == views(parts@).subrange(from as int, to as int),
{
    let mut out: Vec<String> = Vec::new();
    let mut i: usize = from;
    assert(views(out@) =~= views(parts@).subrange(from as int, from as int));
    while i < to
        invariant
            from <= i <= to <= parts@.len(),
            views(out@) == views(parts@).subrange(from as int, i as int),
        decreases to - i,
    {
        push_string(&mut out, parts[i].as_str());
        i += 1;
        assert(views(out@) =~= views(parts@).subrange(from as int, i as int));
    }
    out
}

fn text_of_path(parts: &Vec<String>) -> (r: String)
    ensures
        r@ == path_text(views(parts@)),
{
    if parts.len() > 0 && same(parts[0].as_str(), "/") {
        let rest = texts_between(parts, 1, parts.len());
        assert(views(rest@) =~= views(parts@).skip(1));
        return concat("/", join(&rest, "/").as_str());
    }
    join(parts, "/")
}

/// Where a file is looked for: the folder that it is in, and its name there. A path that is not
/// absolute is one below the root. The folder may still lead through links; the name is never
/// followed.
pub open spec fn located(root: Seq<char>, path: Seq<char>) -> Result<
    (Seq<char>, Seq<char>),
    FaultView,
> {
    let whole = if path.len() > 0 && path[0] == '/' {
        path
    } else {
        below(root, path)
    };
    let parts = components(whole);
    if parts.len() == 0 || parts.last() == "/"@ {
        Err(other("file has no parent"@))
    } else if parts.last() == "."@ || parts.last() == ".."@ {
        Err(other("file has no name"@))
    } else {
        Ok((path_text(parts.drop_last()), parts.last()))
    }
}

/// Where a file is looked for: the folder that it is in, and its name there.
pub fn locate(root: &str, path: &str) -> (r: Result<(String, String), Fault>)
    ensures
        match r {
            Ok((folder, name)) => located(root@, path@) == Ok::<_, FaultView>((folder@, name@)),
            Err(f) => located(root@, path@) == Err::<(Seq<char>, Seq<char>), _>(f@),
        },
{
    let chars = chars_of(path);
    let whole = if chars.len() > 0 && chars[0] == '/' {
        path.to_owned()
    } else {
        under(root, path)
    };
    let parts = components_of(whole.as_str());
    let count = parts.len();
    if count == 0 {
        return Err(Fault::other("file has no parent"));
    }
    let last = parts[count - 1].as_str();
    assert(last@ == components(whole@).last());
    if same(last, "/") {
        return Err(Fault::other("file has no parent"));
    }
    if same(last, ".") || same(last, "..") {
        return Err(Fault::other("file has no name"));
    }
    let folder = texts_between(&parts, 0, count - 1);
    assert(views(folder@) =~= components(whole@).drop_last());
    Ok((text_of_path(&folder), last.to_owned()))
}

/// One path lies below another, or is the same.
pub open spec fn lies_below(root: Seq<char>, path: Seq<char>) -> bool {
    let top = components(root);
    let parts = components(path);
    top.len() <= parts.len() && parts.take(top.len() as int) == top
}

/// The way from the root to a path below it.
pub open spec fn way_below(root: Seq<char>, path: Seq<char>) -> Seq<char> {
    path_text(components(path).skip(components(root).len() as int))
}

/// The way from the root to a path, both without links and dots. What does not lie below the root is
/// refused.
pub fn relative(root: &str, path: &str) -> (r: Result<String, Fault>)
    ensures
        match r {
            Ok(way) => lies_below(root@, path@) && way@ == way_below(root@, path@),
            Err(f) => !lies_below(root@, path@) && f@ == (FaultView {
                kind: FaultKind::PermissionDenied,
                message: "file is outside its allowed directory"@,
            }),
        },
{
    let top = components_of(root);
    let parts = components_of(path);
    if top.len() <= parts.len() {
        let first = texts_between(&parts, 0, top.len());
        assert(views(first@) =~= components(path@).take(components(root@).len() as int));
        if same_texts(&first, &top) {
            let rest = texts_between(&parts, top.len(), parts.len());
            assert(views(rest@) =~= components(path@).skip(components(root@).len() as int));
            return Ok(text_of_path(&rest));
        }
    }
    Err(
        Fault {
            kind: FaultKind::PermissionDenied,
            message: "file is outside its allowed directory".to_owned(),
        },
    )
}

/// What the helper that opens files is asked: a file or a folder on its way below the root.
pub fn open_request(root: &str, relative: &str, directory: bool) -> (r: Json)
    ensures
        r@ == Data::Object(
            map![
                "op"@ => Data::Text("open"@),
                "tree"@ => Data::Object(map!["root"@ => Data::Text(root@)]),
                "path"@ => Data::Text(relative@),
                "directory"@ => Data::Bool(directory)
            ],
        ),
{
    Json::Object(
        object().with_text("op", "open").with(
            "tree",
            Json::Object(object().with_text("root", root)),
        ).with_text("path", relative).with("directory", Json::Bool(directory)),
    )
}

/// What the helper wrote where it handed no file over: the number of the system's error, or why there is
/// none.
pub fn read_opener(bytes: &[u8]) -> (r: Result<i64, Fault>)
    ensures
        match bytes_read(bytes@) {
            Err(_) => r matches Err(f) && f@ == other("agent file opener returned no file"@),
            Ok(value) => match value.field("errno"@).as_i64() {
                Some(code) => r == Ok::<i64, Fault>(code),
                None => r matches Err(f) && f@ == other("agent file path is invalid"@),
            },
        },
{
    match parse_bytes(bytes) {
        Err(_) => Err(Fault::other("agent file opener returned no file")),
        Ok(value) => match value.field("errno").as_i64() {
            Some(code) => Ok(code),
            None => Err(Fault::other("agent file path is invalid")),
        },
    }
}

/// Whether what was opened is what was wanted: a folder, or a file that is one.
pub fn check_opened(directory: bool, is_dir: bool, is_file: bool) -> (r: Result<(), Fault>)
    ensures
        match r {
            Ok(_) => if directory {
                is_dir
            } else {
                is_file
            },
            Err(f) => !(if directory {
                is_dir
            } else {
                is_file
            }) && f@ == other("unexpected file type"@),
        },
{
    if if directory {
        is_dir
    } else {
        is_file
    } {
        Ok(())
    } else {
        Err(Fault::other("unexpected file type"))
    }
}

} // verus!
