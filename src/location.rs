//! Source locations and their display as `path:line:column`, with the path
//! written with `/` whatever the host's convention.
use vstd::prelude::*;
use vstd::string::*;
use crate::text::{decimal, push_decimal};

verus! {

/// A 1-based line and column in a source file.
#[derive(Clone, Copy, Debug, PartialEq, Eq)]
pub struct Position {
    pub line: u32,
    pub column: u32,
}

impl Position {
    pub open spec fn wf(self) -> bool {
        self.line >= 1 && self.column >= 1
    }
}

/// A span of a source file, borrowing the file's name.
#[derive(Clone, Copy, Debug)]
pub struct Location<'a> {
    pub filename: &'a str,
    pub start: Position,
    /// Length of the span.
    pub length: usize,
}

/// A span of a source file that owns a copy of the file's name.
#[derive(Clone, Debug)]
pub struct OwnedLocation {
    pub filename: String,
    pub start: Position,
    /// Length of the span.
    pub length: usize,
}

impl<'a> Location<'a> {
    pub fn new(filename: &'a str, line: u32, column: u32, length: usize) -> (r: Location<'a>)
        requires
            line >= 1,
            column >= 1,
        ensures
            r.filename@ == filename@,
            r.start == (Position { line, column }),
            r.length == length,
            r.start.wf(),
    {
        Location { filename, start: Position { line, column }, length }
    }

    pub fn length(&self) -> (r: usize)
        ensures
            r == self.length,
    {
        self.length
    }

    /// A copy that no longer borrows the file's name.
    pub fn as_owned(&self) -> (r: OwnedLocation)
        ensures
            r.filename@ == self.filename@,
            r.start == self.start,
            r.length == self.length,
    {
        OwnedLocation { filename: self.filename.to_string(), start: self.start, length: self.length }
    }
}

impl OwnedLocation {
    pub fn length(&self) -> (r: usize)
        ensures
            r == self.length,
    {
        self.length
    }
}

/// One component of a path, as the host splits it.
#[derive(Clone, Debug)]
pub enum PathComponent {
    /// A host-specific prefix such as a drive designator.
    Prefix,
    RootDir,
    CurDir,
    ParentDir,
    Normal(String),
}

/// How one component is written.
pub open spec fn component_text(c: PathComponent) -> Seq<char> {
    match c {
        PathComponent::Prefix => Seq::<char>::empty(),
        PathComponent::RootDir => seq!['/'],
        PathComponent::CurDir => seq!['.'],
        PathComponent::ParentDir => seq!['.', '.'],
        PathComponent::Normal(s) => s@,
    }
}

/// The components joined by `/`, with no separator right after the root.
pub open spec fn path_text(cs: Seq<PathComponent>) -> Seq<char>
    decreases cs.len(),
{
    if cs.len() == 0 {
        Seq::<char>::empty()
    } else {
        let sep = if cs.len() >= 2 && !(cs[cs.len() - 2] is RootDir) {
            seq!['/']
        } else {
            Seq::<char>::empty()
        };
        path_text(cs.drop_last()) + sep + component_text(cs.last())
    }
}

/// `path:line:column`.
pub open spec fn location_line(path: Seq<char>, start: Position) -> Seq<char> {
    path + seq![':'] + decimal(start.line as nat) + seq![':'] + decimal(start.column as nat)
}

/// `path:line:column` for a path given by its components.
pub open spec fn location_text(cs: Seq<PathComponent>, start: Position) -> Seq<char> {
    location_line(path_text(cs), start)
}

/// A file name that every host reads as one normal component: not empty, not
/// `.` or `..`, and without `/`, `\` or `:`.
pub open spec fn is_plain_name(s: Seq<char>) -> bool {
    &&& s.len() > 0
    &&& s != seq!['.']
    &&& s != seq!['.', '.']
    &&& forall|i: int| 0 <= i < s.len() ==> s[i] != '/' && s[i] != '\\' && s[i] != ':'
}

/// Whether `i` is where a `/`-separated segment of `s` starts.
pub open spec fn starts_segment(s: Seq<char>, i: int) -> bool {
    i == 0 || s[i - 1] == '/'
}

/// Whether `i` is where a `/`-separated segment of `s` ends.
pub open spec fn ends_segment(s: Seq<char>, i: int) -> bool {
    i == s.len() || s[i] == '/'
}

/// A relative path that every host splits the same way: plain names joined
/// by single `/`s, with no `/` at either end.
pub open spec fn is_plain_path(s: Seq<char>) -> bool {
    &&& s.len() > 0
    &&& forall|i: int| 0 <= i < s.len() ==> s[i] != '\\' && s[i] != ':'
    &&& forall|i: int|
        0 <= i < s.len() && s[i] == '/' ==> !starts_segment(s, i) && !ends_segment(s, i + 1)
    &&& forall|i: int|
        0 <= i < s.len() && starts_segment(s, i) && s[i] == '.' ==> !ends_segment(s, i + 1) && !(s[i
            + 1] == '.' && ends_segment(s, i + 2))
}

/// Every component of `cs` is a normal one with a plain name.
pub open spec fn all_plain_names(cs: Seq<PathComponent>) -> bool {
    forall|i: int|
        0 <= i < cs.len() ==> (#[trigger] cs[i] matches PathComponent::Normal(n) && is_plain_name(n@))
}

/// Writes a path given by its components with `/` as the separator.
pub fn format_path(components: &Vec<PathComponent>) -> (r: String)
    ensures
        r@ == path_text(components@),
{
    let mut out = String::new();
    let mut i: usize = 0;
    while i < components.len()
        invariant
            i <= components.len(),
            out@ == path_text(components@.subrange(0, i as int)),
        decreases components.len() - i,
    {
        proof {
            reveal_strlit("/");
            reveal_strlit(".");
            reveal_strlit("..");
        }
        let ghost before = out@;
        let ghost cs = components@.subrange(0, i + 1);
        proof {
            assert(cs.drop_last() =~= components@.subrange(0, i as int));
            assert(cs.last() == components@[i as int]);
            if i > 0 {
                assert(cs[cs.len() - 2] == components@[i - 1]);
            }
        }
        if i > 0 {
            match &components[i - 1] {
                PathComponent::RootDir => {},
                _ => out.append("/"),
            }
        }
        let ghost mid = out@;
        assert(mid =~= before + (if cs.len() >= 2 && !(cs[cs.len() - 2] is RootDir) {
            seq!['/']
        } else {
            Seq::<char>::empty()
        }));
        match &components[i] {
            PathComponent::Prefix => {},
            PathComponent::RootDir => out.append("/"),
            PathComponent::CurDir => out.append("."),
            PathComponent::ParentDir => out.append(".."),
            PathComponent::Normal(s) => out.append(s.as_str()),
        }
        assert(out@ =~= mid + component_text(cs.last()));
        i = i + 1;
        assert(out@ =~= path_text(cs));
    }
    assert(components@.subrange(0, components.len() as int) =~= components@);
    out
}

/// Relies on std::path::Path::components: splits a path by the host's
/// conventions, normal components written lossily as text. On every host a
/// plain relative path comes back as its `/`-separated names, in order, each
/// a normal component.
#[verifier::external_body]
pub(crate) fn path_components(path: &str) -> (r: Vec<PathComponent>)
    ensures
        is_plain_path(path@) ==> all_plain_names(r@) && path_text(r@) == path@,
{
    std::path::Path::new(path).components().map(|c| match c {
        std::path::Component::Prefix(_) => PathComponent::Prefix,
        std::path::Component::RootDir => PathComponent::RootDir,
        std::path::Component::CurDir => PathComponent::CurDir,
        std::path::Component::ParentDir => PathComponent::ParentDir,
        std::path::Component::Normal(s) => PathComponent::Normal(s.to_string_lossy().into_owned()),
    }).collect()
}

impl<'a> Location<'a> {
    /// `path:line:column`, the path split by the host's conventions and
    /// written with `/`.
    pub fn text(&self) -> (r: String)
        ensures
            exists|cs: Seq<PathComponent>| r@ == #[trigger] location_text(cs, self.start),
            is_plain_path(self.filename@) ==> r@ == location_line(self.filename@, self.start),
    {
        let components = path_components(self.filename);
        format_location(&components, self.start)
    }
}

impl OwnedLocation {
    /// `path:line:column`, the path split by the host's conventions and
    /// written with `/`.
    pub fn text(&self) -> (r: String)
        ensures
            exists|cs: Seq<PathComponent>| r@ == #[trigger] location_text(cs, self.start),
            is_plain_path(self.filename@) ==> r@ == location_line(self.filename@, self.start),
    {
        let components = path_components(self.filename.as_str());
        format_location(&components, self.start)
    }
}

/// Writes `path:line:column` for a path given by its components.
pub fn format_location(components: &Vec<PathComponent>, start: Position) -> (r: String)
    ensures
        r@ == location_text(components@, start),
{
    let mut out = format_path(components);
    proof {
        reveal_strlit(":");
    }
    out.append(":");
    push_decimal(&mut out, start.line as u64);
    out.append(":");
    push_decimal(&mut out, start.column as u64);
    assert(out@ =~= location_text(components@, start));
    out
}

} // verus!
