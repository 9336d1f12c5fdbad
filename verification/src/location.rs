//! Places that a scaffold reads and writes.

use txtx_core::kit::helpers::fs::FileLocation;
use vstd::prelude::*;

verus! {

/// `FileLocation`: a path on this machine, or a URL.
#[verifier::external_type_specification]
#[verifier::external_body]
pub struct ExFileLocation(txtx_core::kit::helpers::fs::FileLocation);

/// What a location displays as.
pub uninterp spec fn location_text(location: FileLocation) -> Seq<char>;

/// The components that the path of a location holds, from the outermost on.
pub uninterp spec fn location_components(location: FileLocation) -> Seq<Seq<char>>;

/// Whether a location is a path on this machine.
pub uninterp spec fn location_on_disk(location: FileLocation) -> bool;

/// Whether a location is a URL whose path is a hierarchy, so that entries can stand below it.
pub uninterp spec fn url_takes_entries(location: FileLocation) -> bool;

/// Whether a location has another one above it.
pub uninterp spec fn location_has_parent(location: FileLocation) -> bool;

/// All that the contracts read of a location.
pub struct LocationView {
    pub text: Seq<char>,
    pub components: Seq<Seq<char>>,
    pub on_disk: bool,
}

/// The view of a location.
pub open spec fn location_view(location: FileLocation) -> LocationView {
    LocationView {
        text: location_text(location),
        components: location_components(location),
        on_disk: location_on_disk(location),
    }
}

/// Whether a text is the name of one file or directory on every platform: not empty, neither
/// `.` nor `..`, and without a path separator or a drive mark.
pub open spec fn plain_name(name: Seq<char>) -> bool {
    &&& name.len() > 0
    &&& name[0] != '.' || (name.len() > 1 && name[1] != '.')
    &&& forall|i: int|
        0 <= i < name.len() ==> name[i] != '/' && #[trigger] name[i] != '\\' && name[i] != ':'
}

/// Whether all texts are names of one file or directory on every platform, or `..`.
pub open spec fn path_names(names: Seq<Seq<char>>) -> bool {
    forall|i: int| 0 <= i < names.len() ==> plain_name(#[trigger] names[i]) || names[i] == ".."@
}

/// Whether texts can stand between the slashes of a relative path and be its components: path
/// names, the first of which may also be `.`.
pub open spec fn relative_names(names: Seq<Seq<char>>) -> bool {
    path_names(names) || names.len() > 0 && names[0] == "."@ && path_names(names.skip(1))
}

/// The names with a slash between each two of them.
pub open spec fn slash_path(names: Seq<Seq<char>>) -> Seq<char>
    decreases names.len(),
{
    if names.len() == 0 {
        Seq::empty()
    } else if names.len() == 1 {
        names[0]
    } else {
        slash_path(names.drop_last()).push('/') + names.last()
    }
}

/// What is known of the components of a path that is given as a text. The empty text has none.
/// Names with slashes between them are the components, `..` and a leading `.` among them; behind a
/// leading slash a root comes first.
pub open spec fn path_components(text: Seq<char>, components: Seq<Seq<char>>) -> bool {
    &&& text.len() == 0 ==> components.len() == 0
    &&& plain_name(text) ==> components == seq![text]
    &&& forall|names: Seq<Seq<char>>|
        relative_names(names) && text == #[trigger] slash_path(names) ==> components == names
    &&& forall|names: Seq<Seq<char>>|
        names.len() > 0 && path_names(names) && text == seq!['/'] + #[trigger] slash_path(names)
            ==> components.len() == names.len() + 1 && components.skip(1) == names
}

/// `FileLocation::from_path_string`: every text is taken as a path on this machine, and the
/// location displays as that text. Its components are those of the text, as far as these are the
/// same on every platform.
pub assume_specification[ FileLocation::from_path_string ](path_string: &str) -> (r: Result<
    FileLocation,
    String,
>)
    ensures
        r is Ok,
        location_text(r->Ok_0) == path_string@,
        location_on_disk(r->Ok_0),
        path_components(path_string@, location_components(r->Ok_0)),
;

/// `FileLocation::working_dir`: the path `.`.
pub assume_specification[ FileLocation::working_dir ]() -> (r: FileLocation)
    ensures
        location_text(r) == "."@,
        location_components(r) == seq!["."@],
        location_on_disk(r),
;

/// `FileLocation::clone`: the copy is the same location.
pub assume_specification[ <FileLocation as Clone>::clone ](location: &FileLocation) -> (r:
    FileLocation)
    ensures
        location_view(r) == location_view(*location),
        url_takes_entries(r) == url_takes_entries(*location),
        location_has_parent(r) == location_has_parent(*location),
;

/// Whether a path that displays as `text` can take entries without being read anew: it starts
/// neither with a backslash nor with two separators. What starts that way may be, or become, the
/// name of a server and a share, or a path that is written in another form.
pub open spec fn extends_plainly(text: Seq<char>) -> bool {
    text.len() > 0 ==> {
        &&& text[0] != '\\'
        &&& text[0] == '/' && text.len() > 1 ==> text[1] != '/' && text[1] != '\\'
    }
}

/// Whether `text` is what an entry of the given name displays as in a directory that displays as
/// `parent`: the name behind the directory, with the path separator of the platform between them
/// where one is needed. None is needed behind a slash, nor where the directory displays as nothing.
pub open spec fn entry_text(text: Seq<char>, parent: Seq<char>, name: Seq<char>) -> bool {
    if parent.len() == 0 {
        text == name
    } else {
        ||| text == parent + name
        ||| parent.last() != '/' && text == parent.push('/') + name
        ||| parent.last() != '/' && text == parent.push('\\') + name
    }
}

/// Whether a path that displays as `text` may be written anew when it takes an entry: it starts with
/// two backslashes and a question mark.
pub open spec fn rewritten(text: Seq<char>) -> bool {
    text.len() >= 3 && text[0] == '\\' && text[1] == '\\' && text[2] == '?'
}

/// `FileLocation::append_path`, for the name of one file or directory: what a path on this machine
/// displays as then ends with that name, and is the path with the name behind it unless it may be
/// written anew. A path that extends plainly gets the name as its last component. A URL takes the
/// name too, unless its path is no hierarchy. Which components other paths then have, and what a
/// URL then displays as, is not said.
pub assume_specification[ FileLocation::append_path ](
    location: &mut FileLocation,
    path_string: &str,
) -> (r: Result<(), String>)
    requires
        plain_name(path_string@),
    ensures
        r is Ok <==> location_on_disk(*old(location)) || url_takes_entries(*old(location)),
        r is Err ==> r->Err_0@ == "unable to mutate url"@,
        location_on_disk(*final(location)) == location_on_disk(*old(location)),
        url_takes_entries(*final(location)) == url_takes_entries(*old(location)),
        location_on_disk(*old(location)) ==> path_string@.is_suffix_of(
            location_text(*final(location)),
        ),
        location_on_disk(*old(location)) && !rewritten(location_text(*old(location)))
            ==> entry_text(
            location_text(*final(location)),
            location_text(*old(location)),
            path_string@,
        ),
        location_on_disk(*old(location)) && extends_plainly(location_text(*old(location)))
            ==> location_components(*final(location)) == location_components(*old(location)).push(
            path_string@,
        ),
;

/// Whether `parent` is above `location`: a path on this machine without the last component of the
/// other one. It displays as the first part of what that displays as, and as nothing where no
/// component is left. Nothing is above `/`.
pub open spec fn parent_of(parent: FileLocation, location: FileLocation) -> bool {
    &&& location_on_disk(parent)
    &&& location_components(location).len() > 0
    &&& location_components(parent) == location_components(location).drop_last()
    &&& location_text(parent).is_prefix_of(location_text(location))
    &&& location_components(parent).len() == 0 ==> location_text(parent).len() == 0
    &&& location_text(location) != seq!['/']
}

/// What holds where nothing is above a path on this machine: it is empty, or ends in a root or a
/// drive, which is neither a plain name nor `.` or `..`. Paths that are no Unicode text display with a replacement
/// character; nothing is said of those.
pub open spec fn no_parent_of(location: FileLocation) -> bool {
    let components = location_components(location);
    ||| location_text(location).contains('\u{FFFD}')
    ||| components.len() == 0
    ||| !plain_name(components.last()) && components.last() != "."@ && components.last() != ".."@
}

/// `FileLocation::get_parent_location`, on a path on this machine: the path above it, unless there
/// is none.
pub assume_specification[ FileLocation::get_parent_location ](location: &FileLocation) -> (r:
    Result<FileLocation, String>)
    ensures
        r is Ok <==> location_has_parent(*location),
        location_on_disk(*location) ==> match r {
            Ok(parent) => parent_of(parent, *location),
            Err(e) => e@ == "reached root"@ && no_parent_of(*location),
        },
;

/// `FileLocation`, told apart by its variant: a path on this machine is a `FileSystem`.
#[verifier::external_body]
pub(crate) fn is_on_disk(location: &FileLocation) -> (found: bool)
    ensures
        found == location_on_disk(*location),
{
    match location {
        FileLocation::FileSystem { .. } => true,
        FileLocation::Url { .. } => false,
    }
}

/// `FileLocation` displayed, through its `to_string`.
#[verifier::external_body]
pub(crate) fn displayed(location: &FileLocation) -> (text: String)
    ensures
        text@ == location_text(*location),
{
    location.to_string()
}

/// Whether `text` is `base` with more behind it, of which the first character is ASCII (such as a
/// path separator).
pub open spec fn below(base: Seq<char>, text: Seq<char>) -> bool {
    &&& base.len() < text.len()
    &&& text.take(base.len() as int) == base
    &&& text[base.len() as int] as u32 <= 127
}

/// What is left of `text` behind `base` and one more character.
pub open spec fn remainder(base: Seq<char>, text: Seq<char>) -> Seq<char> {
    text.skip(base.len() as int + 1)
}

/// `FileLocation::get_relative_path_from_base`, where what the location displays as is below what
/// the base displays as: what is left of it behind the base and one character.
pub assume_specification[ FileLocation::get_relative_path_from_base ](
    location: &FileLocation,
    base_location: &FileLocation,
) -> (r: Result<String, String>)
    requires
        below(location_text(*base_location), location_text(*location)),
    ensures
        r is Ok,
        r->Ok_0@ == remainder(location_text(*base_location), location_text(*location)),
;

/// Whether `text` is `base` with more behind it that starts with an ASCII character.
fn is_below(base: &str, text: &str) -> (found: bool)
    ensures
        found == below(base@, text@),
{
    let n = base.unicode_len();
    if n >= text.unicode_len() {
        return false;
    }
    let mut i: usize = 0;
    while i < n
        invariant
            i <= n == base@.len(),
            n < text@.len(),
            forall|j: int| 0 <= j < i ==> base@[j] == #[trigger] text@[j],
        decreases n - i,
    {
        if base.get_char(i) != text.get_char(i) {
            proof {
                assert(text@.take(n as int)[i as int] != base@[i as int]);
            }
            return false;
        }
        i = i + 1;
    }
    proof {
        assert(text@.take(n as int) =~= base@);
    }
    text.get_char(n) as u32 <= 127
}

/// A text is below a base exactly if it is the base, one ASCII character and some rest, and that
/// rest is then what is left.
pub proof fn law_relative_path_is_what_is_behind_the_base(base: Seq<char>, text: Seq<char>)
    ensures
        below(base, text) ==> text[base.len() as int] as u32 <= 127 && text == base.push(
            text[base.len() as int],
        ) + remainder(base, text),
        forall|separator: char, rest: Seq<char>|
            separator as u32 <= 127 && text == #[trigger] (base.push(separator) + rest) ==> {
                &&& below(base, text)
                &&& remainder(base, text) == rest
            },
{
    if below(base, text) {
        assert(text.take(base.len() as int) =~= base);
        assert(text =~= base.push(text[base.len() as int]) + remainder(base, text));
    }
    assert forall|separator: char, rest: Seq<char>|
        separator as u32 <= 127 && text == #[trigger] (base.push(separator) + rest) implies below(
        base,
        text,
    ) && remainder(base, text) == rest by {
        assert(text.take(base.len() as int) =~= base);
        assert(remainder(base, text) =~= rest);
    }
}

/// The path of a location relative to a base that it displays below: what is left behind the base
/// and the separator after it. Nothing where it does not display below the base.
pub fn relative_path(location: &FileLocation, base: &FileLocation) -> (path: Option<String>)
    ensures
        path is Some <==> below(location_text(*base), location_text(*location)),
        path is Some ==> path->Some_0@ == remainder(
            location_text(*base),
            location_text(*location),
        ),
        path is Some ==> exists|separator: char|
            separator as u32 <= 127 && location_text(*location) == #[trigger] location_text(
                *base,
            ).push(separator) + path->Some_0@,
        path is None ==> !(exists|separator: char, rest: Seq<char>|
            separator as u32 <= 127 && location_text(*location) == #[trigger] (location_text(
                *base,
            ).push(separator) + rest)),
{
    proof {
        law_relative_path_is_what_is_behind_the_base(
            location_text(*base),
            location_text(*location),
        );
    }
    if is_below(displayed(base).as_str(), displayed(location).as_str()) {
        match location.get_relative_path_from_base(base) {
            Ok(path) => Some(path),
            Err(_) => None,
        }
    } else {
        None
    }
}

/// An entry of a path that extends plainly extends plainly itself.
proof fn lemma_entries_extend_plainly(text: Seq<char>, parent: Seq<char>, name: Seq<char>)
    requires
        extends_plainly(parent),
        plain_name(name),
        entry_text(text, parent, name),
    ensures
        extends_plainly(text),
{
    if parent.len() > 0 {
        assert(text[0] == parent[0]);
        if parent.len() > 1 {
            assert(text[1] == parent[1]);
        }
    }
}

/// An entry of a path that is not written anew is not either, unless its name starts with a
/// question mark.
proof fn lemma_entries_are_not_rewritten(text: Seq<char>, parent: Seq<char>, name: Seq<char>)
    requires
        !rewritten(parent),
        plain_name(name),
        name[0] != '?',
        entry_text(text, parent, name),
    ensures
        !rewritten(text),
{
    if parent.len() >= 3 {
        assert(text[0] == parent[0] && text[1] == parent[1] && text[2] == parent[2]);
    }
}

/// The location of an entry named `name` in the directory at `parent`.
pub fn child(parent: &FileLocation, name: &str) -> (r: Result<FileLocation, String>)
    requires
        plain_name(name@),
    ensures
        match r {
            Ok(location) => {
                &&& location_on_disk(*parent) || url_takes_entries(*parent)
                &&& location_on_disk(location) == location_on_disk(*parent)
                &&& url_takes_entries(location) == url_takes_entries(*parent)
                &&& location_on_disk(*parent) ==> name@.is_suffix_of(location_text(location))
                &&& location_on_disk(*parent) && !rewritten(location_text(*parent)) ==> {
                    &&& entry_text(location_text(location), location_text(*parent), name@)
                    &&& name@[0] != '?' ==> !rewritten(location_text(location))
                }
                &&& location_on_disk(*parent) && extends_plainly(location_text(*parent)) ==> {
                    &&& location_components(location) == location_components(*parent).push(name@)
                    &&& extends_plainly(location_text(location))
                }
            },
            Err(e) => {
                &&& !location_on_disk(*parent) && !url_takes_entries(*parent)
                &&& e@ == "unable to mutate url"@
            },
        },
{
    let mut location = parent.clone();
    match location.append_path(name) {
        Ok(_) => {
            proof {
                if location_on_disk(*parent) && !rewritten(location_text(*parent)) && name@[0]
                    != '?' {
                    lemma_entries_are_not_rewritten(
                        location_text(location),
                        location_text(*parent),
                        name@,
                    );
                }
                if location_on_disk(*parent) && extends_plainly(location_text(*parent)) {
                    lemma_entries_extend_plainly(
                        location_text(location),
                        location_text(*parent),
                        name@,
                    );
                }
            }
            Ok(location)
        },
        Err(e) => Err(e),
    }
}

} // verus!
