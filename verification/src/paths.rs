//! Filesystem paths as sequences of components.

use crate::text;
use vstd::prelude::*;

verus! {

/// The byte that separates the components of a path.
pub const SEPARATOR: u8 = 47;

/// The byte that starts the extension of a file name.
pub const DOT: u8 = 46;

/// One component of a path.
#[verifier::ext_equal]
pub enum Part {
    Root,
    Current,
    Parent,
    Name(Seq<u8>),
}

/// One component of a path, as stored.
#[derive(Debug)]
pub enum PathPart {
    Root,
    Current,
    Parent,
    Name(Vec<u8>),
}

impl View for PathPart {
    type V = Part;

    open spec fn view(&self) -> Part {
        match self {
            PathPart::Root => Part::Root,
            PathPart::Current => Part::Current,
            PathPart::Parent => Part::Parent,
            PathPart::Name(name) => Part::Name(name@),
        }
    }
}

impl PathPart {
    fn copy(&self) -> (copy: PathPart)
        ensures
            copy@ == self@,
    {
        match self {
            PathPart::Root => PathPart::Root,
            PathPart::Current => PathPart::Current,
            PathPart::Parent => PathPart::Parent,
            PathPart::Name(name) => PathPart::Name(text::copy_bytes(name)),
        }
    }

    fn same(&self, other: &PathPart) -> (same: bool)
        ensures
            same == (self@ == other@),
    {
        match (self, other) {
            (PathPart::Root, PathPart::Root) => true,
            (PathPart::Current, PathPart::Current) => true,
            (PathPart::Parent, PathPart::Parent) => true,
            (PathPart::Name(left), PathPart::Name(right)) => text::bytes_equal(left, right),
            _ => false,
        }
    }
}

/// The components that one segment between two separators contributes: an empty segment and a `.`
/// contribute nothing, except that a `.` opening a relative path is kept.
pub open spec fn segment_parts(segment: Seq<u8>, opens_path: bool) -> Seq<Part> {
    if segment.len() == 0 {
        Seq::empty()
    } else if segment == seq![DOT] {
        if opens_path {
            seq![Part::Current]
        } else {
            Seq::empty()
        }
    } else if segment == seq![DOT, DOT] {
        seq![Part::Parent]
    } else {
        seq![Part::Name(segment)]
    }
}

/// The components of the segments of `text` from `start` on, where a segment is complete at a
/// separator or at the end of the text and `at` is where the search for its end continues.
pub open spec fn parts_from(text: Seq<u8>, start: int, at: int) -> Seq<Part>
    recommends
        0 <= start <= at <= text.len(),
    decreases text.len() - at,
{
    if at >= text.len() {
        segment_parts(text.subrange(start, text.len() as int), start == 0)
    } else if text[at] == SEPARATOR {
        segment_parts(text.subrange(start, at), start == 0) + parts_from(text, at + 1, at + 1)
    } else {
        parts_from(text, start, at + 1)
    }
}

/// The components of a path as it is spelled.
pub open spec fn path_parts(text: Seq<u8>) -> Seq<Part> {
    if text.len() > 0 && text[0] == SEPARATOR {
        seq![Part::Root] + parts_from(text, 1, 1)
    } else {
        parts_from(text, 0, 0)
    }
}

/// A path with its spelling. Two paths are equal when their components are.
#[derive(Debug)]
pub struct StorePath {
    spelling: Vec<u8>,
    parts: Vec<PathPart>,
}

/// The spelling of a path one component longer.
pub open spec fn joined_spelling(base: Seq<u8>, name: Seq<u8>) -> Seq<u8> {
    if base.len() == 0 || base.last() == SEPARATOR {
        base + name
    } else {
        base.push(SEPARATOR) + name
    }
}

/// The components that a sequence of stored components stands for.
pub open spec fn parts_view(parts: Seq<PathPart>) -> Seq<Part> {
    Seq::new(parts.len(), |i: int| parts[i]@)
}

/// Whether a byte string is the name of one file or directory.
pub open spec fn is_plain_name(name: Seq<u8>) -> bool {
    &&& name.len() > 0
    &&& !name.contains(SEPARATOR)
    &&& name != seq![DOT]
    &&& name != seq![DOT, DOT]
}

/// Whether a spelling holds nothing behind its last component.
pub open spec fn is_trimmed(spelling: Seq<u8>) -> bool {
    ||| spelling.len() <= 1
    ||| spelling.last() != SEPARATOR && !(spelling.last() == DOT && spelling[spelling.len() - 2]
        == SEPARATOR)
}

impl StorePath {
    /// How the path is spelled.
    pub closed spec fn spelled(&self) -> Seq<u8> {
        self.spelling@
    }

    #[verifier::type_invariant]
    spec fn sound(&self) -> bool {
        parts_view(self.parts@) == path_parts(self.spelling@)
    }
}

/// What a path names is what its spelling names.
impl View for StorePath {
    type V = Seq<Part>;

    open spec fn view(&self) -> Seq<Part> {
        path_parts(self.spelled())
    }
}

/// A separator ends what stands before it.
proof fn parts_from_split(text: Seq<u8>, end: int, start: int, at: int)
    requires
        0 <= start <= at <= end < text.len(),
        text[end] == SEPARATOR,
    ensures
        parts_from(text, start, at) == parts_from(text.take(end), start, at) + parts_from(
            text,
            end + 1,
            end + 1,
        ),
    decreases end - at,
{
    let head = text.take(end);
    if at == end {
        assert(head.subrange(start, end) =~= text.subrange(start, end));
    } else if text[at] == SEPARATOR {
        parts_from_split(text, end, at + 1, at + 1);
        assert(head.subrange(start, at) =~= text.subrange(start, at));
        let first = segment_parts(text.subrange(start, at), start == 0);
        assert(first + (parts_from(head, at + 1, at + 1) + parts_from(text, end + 1, end + 1)) =~= (
        first + parts_from(head, at + 1, at + 1)) + parts_from(text, end + 1, end + 1));
    } else {
        parts_from_split(text, end, start, at + 1);
    }
}

proof fn path_splits(text: Seq<u8>, end: int)
    requires
        0 < end < text.len(),
        text[end] == SEPARATOR,
    ensures
        path_parts(text) == path_parts(text.take(end)) + parts_from(text, end + 1, end + 1),
{
    if text[0] == SEPARATOR {
        parts_from_split(text, end, 1, 1);
        let rest = parts_from(text, end + 1, end + 1);
        assert(seq![Part::Root] + (parts_from(text.take(end), 1, 1) + rest) =~= (seq![Part::Root]
            + parts_from(text.take(end), 1, 1)) + rest);
    } else {
        parts_from_split(text, end, 0, 0);
    }
}

/// What holds no separator is one segment.
proof fn one_segment(text: Seq<u8>, start: int, at: int)
    requires
        0 <= start <= at <= text.len(),
        forall|i: int| at <= i < text.len() ==> text[i] != SEPARATOR,
    ensures
        parts_from(text, start, at) == segment_parts(
            text.subrange(start, text.len() as int),
            start == 0,
        ),
    decreases text.len() - at,
{
    if at < text.len() {
        one_segment(text, start, at + 1);
    }
}

proof fn names_from_are_plain(text: Seq<u8>, start: int, at: int)
    requires
        0 <= start <= at <= text.len(),
        forall|i: int| start <= i < at ==> text[i] != SEPARATOR,
    ensures
        forall|i: int|
            0 <= i < parts_from(text, start, at).len() ==> (#[trigger] parts_from(
                text,
                start,
                at,
            )[i] matches Part::Name(name) ==> is_plain_name(name)),
    decreases text.len() - at,
{
    if at >= text.len() {
    } else if text[at] == SEPARATOR {
        names_from_are_plain(text, at + 1, at + 1);
    } else {
        names_from_are_plain(text, start, at + 1);
    }
}

/// Every name in a path is the name of one file or directory.
pub proof fn names_are_plain(text: Seq<u8>)
    ensures
        forall|i: int|
            0 <= i < path_parts(text).len() ==> (#[trigger] path_parts(text)[i] matches Part::Name(
                name,
            ) ==> is_plain_name(name)),
{
    names_from_are_plain(text, 0, 0);
    if text.len() > 0 && text[0] == SEPARATOR {
        names_from_are_plain(text, 1, 1);
    }
}

/// Joining the name of a file or directory to a path makes it one component longer.
pub proof fn joining_adds_a_name(base: Seq<u8>, name: Seq<u8>)
    requires
        is_plain_name(name),
    ensures
        path_parts(joined_spelling(base, name)) == path_parts(base).push(Part::Name(name)),
{
    let joined = joined_spelling(base, name);
    assert forall|i: int| 0 <= i < name.len() implies name[i] != SEPARATOR by {
        assert(name.contains(name[i]));
    }
    if base.len() == 0 {
        assert(joined =~= name);
        one_segment(joined, 0, 0);
        assert(joined.subrange(0, joined.len() as int) =~= name);
        assert(base.subrange(0, 0) =~= Seq::<u8>::empty());
        assert(path_parts(base) =~= Seq::<Part>::empty());
        assert(path_parts(joined) =~= path_parts(base).push(Part::Name(name)));
    } else {
        let end = if base.last() == SEPARATOR {
            base.len() - 1
        } else {
            base.len() as int
        };
        assert(joined[end] == SEPARATOR);
        one_segment(joined, end + 1, end + 1);
        assert(joined.subrange(end + 1, joined.len() as int) =~= name);
        if end > 0 {
            path_splits(joined, end);
            assert(joined.take(end) =~= base.take(end));
            if base.last() == SEPARATOR {
                path_splits(base, end);
                one_segment(base, end + 1, end + 1);
                assert(base.subrange(end + 1, base.len() as int) =~= Seq::<u8>::empty());
                assert(path_parts(base) =~= path_parts(base.take(end)));
            } else {
                assert(base.take(end) =~= base);
            }
        } else {
            assert(base.subrange(1, 1) =~= Seq::<u8>::empty());
        }
        assert(path_parts(joined) =~= path_parts(base).push(Part::Name(name)));
    }
}

/// A text of three or more ASCII characters without a slash is the name of one file or directory.
pub proof fn text_is_plain_name(name: Seq<char>)
    requires
        name.len() > 2,
        forall|i: int| 0 <= i < name.len() ==> '\0' <= #[trigger] name[i] <= '\u{7f}' && name[i] != '/',
    ensures
        is_plain_name(text::text_bytes(name)),
{
    assert(vstd::utf8::is_ascii_chars(name));
    vstd::utf8::is_ascii_chars_encode_utf8(name);
    let bytes = text::text_bytes(name);
    assert forall|i: int| 0 <= i < bytes.len() implies bytes[i] != SEPARATOR by {
        assert(name[i] as u8 == bytes[i]);
        assert(name[i] as u32 != 47);
    }
}

/// Nothing is lost with a separator at the end, nor with a `.` behind one.
proof fn trimming_keeps_the_parts(text: Seq<u8>)
    requires
        text.len() > 1,
        !is_trimmed(text),
    ensures
        path_parts(text.drop_last()) == path_parts(text),
{
    let shorter = text.drop_last();
    let last = text.len() - 1;
    if text[last] == SEPARATOR {
        path_splits(text, last);
        one_segment(text, last + 1, last + 1);
        assert(text.subrange(last + 1, last + 1) =~= Seq::<u8>::empty());
        assert(text.take(last) =~= shorter);
        assert(path_parts(text) =~= path_parts(shorter));
    } else {
        let end = last - 1;
        one_segment(text, last, last);
        one_segment(shorter, last, last);
        assert(text.subrange(last, last + 1) =~= seq![DOT]);
        assert(shorter.subrange(last, last) =~= Seq::<u8>::empty());
        if end > 0 {
            path_splits(text, end);
            path_splits(shorter, end);
            assert(text.take(end) =~= shorter.take(end));
        }
        assert(path_parts(text) =~= path_parts(shorter));
    }
}

/// A spelling without what stands behind its last separator lacks its last component.
proof fn cutting_drops_a_part(text: Seq<u8>, end: int)
    requires
        text.len() > 0,
        is_trimmed(text),
        text != seq![SEPARATOR],
        0 <= end < text.len(),
        end > 0 ==> text[end - 1] == SEPARATOR,
        forall|i: int| end <= i < text.len() ==> text[i] != SEPARATOR,
    ensures
        path_parts(text).len() > 0,
        !(path_parts(text).last() is Root),
        path_parts(text.take(end)) == path_parts(text).drop_last(),
{
    let head = text.take(end);
    let segment = text.subrange(end, text.len() as int);
    one_segment(text, end, end);
    one_segment(head, end, end);
    assert(head.subrange(end, end) =~= Seq::<u8>::empty());
    assert(segment.len() > 0);
    if end > 0 && segment == seq![DOT] {
        assert(segment[0] == DOT && segment.len() == 1);
        assert(false);
    }
    assert(segment_parts(segment, end == 0).len() == 1);
    let part = segment_parts(segment, end == 0)[0];
    assert(!(part is Root));
    if end > 1 {
        path_splits(text, end - 1);
        path_splits(head, end - 1);
        assert(text.take(end - 1) =~= head.take(end - 1));
        assert(path_parts(text) =~= path_parts(head).push(part));
    } else if end == 1 {
        assert(path_parts(text) =~= path_parts(head).push(part));
    } else {
        assert(text.subrange(0, text.len() as int) =~= text);
        assert(path_parts(head) =~= Seq::<Part>::empty());
        assert(path_parts(text) =~= path_parts(head).push(part));
    }
    assert(path_parts(head).push(part).drop_last() =~= path_parts(head));
}

/// How much of a spelling is left without what stands behind its last component.
fn trimmed_length(spelling: &Vec<u8>, length: usize) -> (trimmed: usize)
    requires
        length <= spelling@.len(),
    ensures
        trimmed <= length,
        is_trimmed(spelling@.take(trimmed as int)),
        path_parts(spelling@.take(trimmed as int)) == path_parts(spelling@.take(length as int)),
{
    let mut trimmed: usize = length;
    while trimmed > 1 && (spelling[trimmed - 1] == SEPARATOR || (spelling[trimmed - 1] == DOT
        && spelling[trimmed - 2] == SEPARATOR))
        invariant
            trimmed <= length <= spelling@.len(),
            path_parts(spelling@.take(trimmed as int)) == path_parts(spelling@.take(length as int)),
        decreases trimmed,
    {
        proof {
            trimming_keeps_the_parts(spelling@.take(trimmed as int));
            assert(spelling@.take(trimmed as int).drop_last() =~= spelling@.take(trimmed - 1));
        }
        trimmed -= 1;
    }
    trimmed
}

fn push_segment(parts: &mut Vec<PathPart>, text: &Vec<u8>, start: usize, end: usize)
    requires
        start <= end <= text@.len(),
    ensures
        parts_view(final(parts)@) == parts_view(old(parts)@) + segment_parts(
            text@.subrange(start as int, end as int),
            start == 0,
        ),
{
    let mut segment: Vec<u8> = Vec::new();
    let mut at: usize = start;
    while at < end
        invariant
            start <= at <= end <= text@.len(),
            segment@ == text@.subrange(start as int, at as int),
        decreases end - at,
    {
        segment.push(text[at]);
        at += 1;
        assert(text@.subrange(start as int, at as int) =~= text@.subrange(start as int, at - 1).push(
            text@[at - 1],
        ));
    }
    let ghost whole = segment@;
    let ghost before = parts_view(parts@);
    if segment.len() == 0 {
        assert(parts_view(parts@) =~= before + segment_parts(whole, start == 0));
    } else if segment.len() == 1 && segment[0] == DOT {
        assert(whole =~= seq![DOT]);
        if start == 0 {
            parts.push(PathPart::Current);
            assert(parts_view(parts@) =~= before + seq![Part::Current]);
        } else {
            assert(parts_view(parts@) =~= before + Seq::<Part>::empty());
        }
    } else if segment.len() == 2 && segment[0] == DOT && segment[1] == DOT {
        assert(whole =~= seq![DOT, DOT]);
        parts.push(PathPart::Parent);
        assert(parts_view(parts@) =~= before + seq![Part::Parent]);
    } else {
        assert(whole != seq![DOT]) by {
            if whole == seq![DOT] {
                assert(whole.len() == 1 && whole[0] == DOT);
            }
        }
        assert(whole != seq![DOT, DOT]) by {
            if whole == seq![DOT, DOT] {
                assert(whole.len() == 2 && whole[0] == DOT && whole[1] == DOT);
            }
        }
        parts.push(PathPart::Name(segment));
        assert(parts_view(parts@) =~= before + seq![Part::Name(whole)]);
    }
}

impl StorePath {
    /// The path that a byte string spells.
    pub fn new(spelling: Vec<u8>) -> (path: StorePath)
        ensures
            path@ == path_parts(spelling@),
            path.spelled() == spelling@,
    {
        let mut parts: Vec<PathPart> = Vec::new();
        let mut start: usize = 0;
        if spelling.len() > 0 && spelling[0] == SEPARATOR {
            parts.push(PathPart::Root);
            start = 1;
        }
        let ghost opening = parts_view(parts@);
        let ghost first = start as int;
        assert(opening =~= if first == 1 { seq![Part::Root] } else { Seq::<Part>::empty() });
        let mut at: usize = start;
        while at < spelling.len()
            invariant
                first <= start <= at <= spelling@.len(),
                parts_view(parts@) + parts_from(spelling@, start as int, at as int) == opening + parts_from(
                    spelling@,
                    first,
                    first,
                ),
            decreases spelling.len() - at,
        {
            if spelling[at] == SEPARATOR {
                let ghost before = parts_view(parts@);
                push_segment(&mut parts, &spelling, start, at);
                assert(before + (segment_parts(spelling@.subrange(start as int, at as int), start == 0)
                    + parts_from(spelling@, at + 1, at + 1)) =~= parts_view(parts@) + parts_from(
                    spelling@,
                    at + 1,
                    at + 1,
                ));
                start = at + 1;
            }
            at += 1;
        }
        let end: usize = spelling.len();
        push_segment(&mut parts, &spelling, start, end);
        assert(parts_view(parts@) =~= path_parts(spelling@));
        StorePath { spelling, parts }
    }

    /// The path that a text spells.
    pub fn from_text(spelling: &str) -> (path: StorePath)
        ensures
            path@ == path_parts(text::text_bytes(spelling@)),
            path.spelled() == text::text_bytes(spelling@),
    {
        StorePath::new(text::copy_bytes(spelling.as_bytes()))
    }

    pub fn copy(&self) -> (copy: StorePath)
        ensures
            copy@ == self@,
            copy.spelled() == self.spelled(),
    {
        proof {
            use_type_invariant(self);
        }
        let mut parts: Vec<PathPart> = Vec::new();
        while parts.len() < self.parts.len()
            invariant
                parts@.len() <= self.parts@.len(),
                parts_view(parts@) == parts_view(self.parts@).take(parts@.len() as int),
            decreases self.parts@.len() - parts@.len(),
        {
            let ghost all = parts_view(self.parts@);
            let ghost done = parts@;
            let next: usize = parts.len();
            parts.push(self.parts[next].copy());
            assert(parts_view(parts@) =~= parts_view(done).push(all[next as int]));
            assert(all.take(next + 1) =~= all.take(next as int).push(all[next as int]));
        }
        let spelling = text::copy_bytes(&self.spelling);
        assert(parts_view(parts@) =~= path_parts(spelling@));
        StorePath { spelling, parts }
    }

    /// The spelling of the path.
    pub fn spelling(&self) -> (spelling: &Vec<u8>)
        ensures
            spelling@ == self.spelled(),
    {
        &self.spelling
    }

    /// How many components the path has.
    pub fn depth(&self) -> (depth: usize)
        ensures
            depth == self@.len(),
    {
        proof {
            use_type_invariant(self);
        }
        self.parts.len()
    }

    /// One component of the path.
    pub fn part(&self, at: usize) -> (part: &PathPart)
        requires
            at < self@.len(),
        ensures
            part@ == self@[at as int],
            part@ matches Part::Name(name) ==> is_plain_name(name),
    {
        proof {
            use_type_invariant(self);
            names_are_plain(self.spelling@);
        }
        assert(parts_view(self.parts@)[at as int] == self.parts@[at as int]@);
        &self.parts[at]
    }

    pub fn same(&self, other: &StorePath) -> (same: bool)
        ensures
            same == (self@ == other@),
    {
        if self.depth() != other.depth() {
            assert(self@.len() != other@.len());
            return false;
        }
        let same = self.starts_with(other);
        assert(same ==> self@ =~= other@) by {
            if other@.is_prefix_of(self@) {
                assert(self@.subrange(0, other@.len() as int) =~= self@);
            }
        }
        assert(self@ == other@ ==> other@.is_prefix_of(self@)) by {
            assert(self@.subrange(0, self@.len() as int) =~= self@);
        }
        same
    }

    /// Whether `base` is this path or one of the directories above it.
    pub fn starts_with(&self, base: &StorePath) -> (answer: bool)
        ensures
            answer == base@.is_prefix_of(self@),
    {
        if base.depth() > self.depth() {
            return false;
        }
        let mut at: usize = 0;
        while at < base.depth()
            invariant
                at <= base@.len() <= self@.len(),
                forall|i: int| 0 <= i < at ==> base@[i] == self@[i],
            decreases base@.len() - at,
        {
            if !self.part(at).same(base.part(at)) {
                assert(base@[at as int] != self@[at as int]);
                assert(!base@.is_prefix_of(self@)) by {
                    if base@.is_prefix_of(self@) {
                        assert(self@.subrange(0, base@.len() as int)[at as int] == self@[at as int]);
                    }
                }
                return false;
            }
            assert(base@[at as int] == self@[at as int]);
            at += 1;
        }
        assert(base@ =~= self@.subrange(0, base@.len() as int));
        true
    }

    /// The path of `name` inside this directory.
    pub fn join(&self, name: &[u8]) -> (path: StorePath)
        ensures
            path.spelled() == joined_spelling(self.spelled(), name@),
            is_plain_name(name@) ==> path@ == self@.push(Part::Name(name@)),
    {
        let mut spelling = text::copy_bytes(&self.spelling);
        let length: usize = spelling.len();
        if length > 0 && spelling[length - 1] != SEPARATOR {
            spelling.push(SEPARATOR);
        }
        text::push_bytes(&mut spelling, name);
        proof {
            if is_plain_name(name@) {
                joining_adds_a_name(self.spelling@, name@);
            }
        }
        StorePath::new(spelling)
    }

    /// The path of the file or directory called `name` inside this directory.
    pub fn join_text(&self, name: &str) -> (path: StorePath)
        ensures
            path.spelled() == joined_spelling(self.spelled(), text::text_bytes(name@)),
            is_plain_name(text::text_bytes(name@)) ==> path@ == self@.push(
                Part::Name(text::text_bytes(name@)),
            ),
    {
        self.join(name.as_bytes())
    }

    /// The components above the last one, unless the path is empty or a root.
    pub open spec fn parent_parts(parts: Seq<Part>) -> Option<Seq<Part>> {
        if parts.len() == 0 || parts.last() is Root {
            None
        } else {
            Some(parts.drop_last())
        }
    }

    /// The directory above, spelled as it is in this path.
    pub fn parent(&self) -> (parent: Option<StorePath>)
        ensures
            match parent {
                Some(parent) => {
                    &&& StorePath::parent_parts(self@) == Some(parent@)
                    &&& parent.spelled().is_prefix_of(self.spelled())
                    &&& is_trimmed(parent.spelled())
                },
                None => StorePath::parent_parts(self@) is None,
            },
    {
        let depth: usize = self.depth();
        if depth == 0 {
            return None;
        }
        if let PathPart::Root = self.part(depth - 1) {
            return None;
        }
        let length: usize = trimmed_length(&self.spelling, self.spelling.len());
        let ghost whole = self.spelling@.take(length as int);
        proof {
            assert(self.spelling@.take(self.spelling@.len() as int) =~= self.spelling@);
            assert(path_parts(whole) == self@);
            if length == 0 {
                assert(whole.subrange(0, 0) =~= Seq::<u8>::empty());
                assert(self@.len() == 0);
            }
            if whole == seq![SEPARATOR] {
                assert(whole.len() == 1 && whole[0] == SEPARATOR);
                assert(whole.subrange(1, 1) =~= Seq::<u8>::empty());
                assert(self@ =~= seq![Part::Root]);
            }
        }
        let mut end: usize = length;
        while end > 0 && self.spelling[end - 1] != SEPARATOR
            invariant
                end <= length <= self.spelling@.len(),
                forall|i: int| end <= i < length ==> self.spelling@[i] != SEPARATOR,
            decreases end,
        {
            end -= 1;
        }
        proof {
            if end == length {
                assert(whole.last() == SEPARATOR);
                assert(whole =~= seq![SEPARATOR]);
            }
            cutting_drops_a_part(whole, end as int);
            assert(whole.take(end as int) =~= self.spelling@.take(end as int));
        }
        let kept: usize = trimmed_length(&self.spelling, end);
        let mut spelling: Vec<u8> = Vec::new();
        while spelling.len() < kept
            invariant
                spelling@.len() <= kept <= self.spelling@.len(),
                spelling@ == self.spelling@.take(spelling@.len() as int),
            decreases kept - spelling@.len(),
        {
            let next: usize = spelling.len();
            spelling.push(self.spelling[next]);
            assert(spelling@ =~= self.spelling@.take(next + 1));
        }
        assert(self.spelling@.subrange(0, kept as int) =~= self.spelling@.take(kept as int));
        Some(StorePath::new(spelling))
    }

    pub fn has_parent(&self, parent: &StorePath) -> (answer: bool)
        ensures
            answer == (StorePath::parent_parts(self@) == Some(parent@)),
    {
        let length: usize = self.depth();
        if length == 0 || parent.depth() != length - 1 {
            assert(self@.len() > 0 ==> self@.drop_last().len() != parent@.len());
            return false;
        }
        if let PathPart::Root = self.part(length - 1) {
            assert(self@.last() is Root);
            return false;
        }
        assert(!(self@.last() is Root));
        assert(self@.drop_last() =~= self@.subrange(0, parent@.len() as int));
        self.starts_with(parent)
    }

    /// The last component, where it is a name.
    pub open spec fn name_of(parts: Seq<Part>) -> Option<Seq<u8>> {
        if parts.len() > 0 {
            match parts.last() {
                Part::Name(name) => Some(name),
                _ => None,
            }
        } else {
            None
        }
    }

    pub fn file_name(&self) -> (name: Option<Vec<u8>>)
        ensures
            match name {
                Some(found) => StorePath::name_of(self@) == Some(found@) && is_plain_name(found@),
                None => StorePath::name_of(self@) is None,
            },
    {
        let length: usize = self.depth();
        if length == 0 {
            return None;
        }
        match self.part(length - 1) {
            PathPart::Name(name) => Some(text::copy_bytes(name)),
            _ => None,
        }
    }

    pub open spec fn is_absolute_parts(parts: Seq<Part>) -> bool {
        parts.len() > 0 && parts[0] is Root
    }

    pub fn is_absolute(&self) -> (answer: bool)
        ensures
            answer == StorePath::is_absolute_parts(self@),
    {
        if self.depth() == 0 {
            return false;
        }
        matches!(self.part(0), PathPart::Root)
    }

    /// Whether a component steps back to a parent directory.
    pub fn has_parent_part(&self) -> (answer: bool)
        ensures
            answer == self@.contains(Part::Parent),
    {
        let mut at: usize = 0;
        while at < self.depth()
            invariant
                at <= self@.len(),
                forall|i: int| 0 <= i < at ==> self@[i] != Part::Parent,
            decreases self@.len() - at,
        {
            if let PathPart::Parent = self.part(at) {
                assert(self@.contains(Part::Parent));
                return true;
            }
            at += 1;
        }
        assert(!self@.contains(Part::Parent));
        false
    }

    /// The text shown for this path.
    pub open spec fn shown(&self) -> Seq<char> {
        text::lossy_text(self.spelled())
    }

    pub fn to_text(&self) -> (shown: String)
        ensures
            shown@ == self.shown(),
    {
        text::utf8_lossy(&self.spelling)
    }
}

/// Whether a file name ends in `.` and this extension, after at least one other byte.
pub open spec fn has_extension(name: Seq<u8>, extension: Seq<u8>) -> bool {
    &&& name.len() > extension.len() + 1
    &&& name.subrange(name.len() - extension.len() - 1, name.len() as int) == seq![DOT] + extension
}

/// Whether the extension of a file name is the one given, which holds no dot itself.
pub fn extension_is(name: &Vec<u8>, extension: &[u8]) -> (answer: bool)
    requires
        !extension@.contains(DOT),
    ensures
        answer == has_extension(name@, extension@),
{
    if name.len() <= extension.len() || name.len() - extension.len() <= 1 {
        return false;
    }
    let dot: usize = name.len() - extension.len() - 1;
    if name[dot] != DOT {
        assert(name@.subrange(dot as int, name@.len() as int)[0] == name@[dot as int]);
        assert((seq![DOT] + extension@)[0] == DOT);
        return false;
    }
    let mut at: usize = 0;
    while at < extension.len()
        invariant
            at <= extension@.len(),
            dot + 1 + extension.len() == name.len(),
            at <= extension.len(),
            name@[dot as int] == DOT,
            forall|i: int| 0 <= i < at ==> name@[dot + 1 + i] == extension@[i],
        decreases extension@.len() - at,
    {
        if name[dot + 1 + at] != extension[at] {
            assert(name@.subrange(dot as int, name@.len() as int)[at + 1] != (seq![DOT] + extension@)[at + 1]);
            return false;
        }
        at += 1;
    }
    assert(name@.subrange(dot as int, name@.len() as int) =~= seq![DOT] + extension@);
    true
}

// ---------------------------------------------------------------------------------------------
// Laws
// ---------------------------------------------------------------------------------------------

/// A name is one file or directory where it is not empty, holds no slash and is neither `.` nor `..`.
pub proof fn plain_names_hold_no_slash(name: Seq<u8>)
    ensures
        name.len() == 0 ==> !is_plain_name(name),
        name.contains(47) ==> !is_plain_name(name),
        !is_plain_name(seq![46u8]),
        !is_plain_name(seq![46u8, 46u8]),
        name.len() > 0 && !name.contains(47) && name != seq![46u8] && name != seq![46u8, 46u8]
            ==> is_plain_name(name),
{
}

/// A path starts at the root exactly where it is spelled with a slash first; the empty path has no
/// component, and the path that is one slash has the root alone.
pub proof fn slashes_start_at_the_root(text: Seq<u8>)
    ensures
        path_parts(Seq::<u8>::empty()).len() == 0,
        path_parts(seq![47u8]) == seq![Part::Root],
        StorePath::is_absolute_parts(path_parts(text)) <==> text.len() > 0 && text[0] == 47,
        forall|i: int| 0 < i < path_parts(text).len() ==> !(#[trigger] path_parts(text)[i] is Root),
{
    let none = Seq::<u8>::empty();
    let root = seq![47u8];
    assert(none.subrange(0, 0) =~= none);
    assert(root.subrange(1, 1) =~= none);
    assert(path_parts(root) =~= seq![Part::Root]);
    no_segment_is_a_root(text, 0, 0);
    if text.len() > 0 {
        no_segment_is_a_root(text, 1, 1);
    }
}

proof fn no_segment_is_a_root(text: Seq<u8>, start: int, at: int)
    requires
        0 <= start <= at <= text.len(),
    ensures
        forall|i: int|
            0 <= i < parts_from(text, start, at).len() ==> !(#[trigger] parts_from(text, start, at)[i]
                is Root),
    decreases text.len() - at,
{
    if at >= text.len() {
    } else if text[at] == SEPARATOR {
        no_segment_is_a_root(text, at + 1, at + 1);
        let first = segment_parts(text.subrange(start, at), start == 0);
        let rest = parts_from(text, at + 1, at + 1);
        assert forall|i: int| 0 <= i < (first + rest).len() implies !(#[trigger] (first + rest)[i]
            is Root) by {
            if i >= first.len() {
                assert((first + rest)[i] == rest[i - first.len()]);
            }
        }
    } else {
        no_segment_is_a_root(text, start, at + 1);
    }
}

/// What stands behind a slash is one more component: a name as it is, and `..` as a step to the
/// parent; nothing, and `.`, add none. A path that is one segment is that name, a step to the parent,
/// or the current directory.
pub proof fn slashes_separate_components(base: Seq<u8>, name: Seq<u8>)
    ensures
        base.len() > 0 ==> path_parts(base.push(47)) == path_parts(base),
        base.len() > 0 ==> path_parts(base.push(47).push(46)) == path_parts(base),
        base.len() > 0 ==> path_parts(base.push(47).push(46).push(46)) == path_parts(base).push(
            Part::Parent,
        ),
        base.len() > 0 && is_plain_name(name) ==> path_parts(base.push(47) + name) == path_parts(
            base,
        ).push(Part::Name(name)),
        is_plain_name(name) ==> path_parts(name) == seq![Part::Name(name)],
        path_parts(seq![46u8]) == seq![Part::Current],
        path_parts(seq![46u8, 46u8]) == seq![Part::Parent],
{
    let none = Seq::<u8>::empty();
    if base.len() > 0 {
        let end = base.len() as int;
        let slashed = base.push(47);
        path_splits(slashed, end);
        one_segment(slashed, end + 1, end + 1);
        assert(slashed.subrange(end + 1, end + 1) =~= none);
        assert(slashed.take(end) =~= base);
        assert(path_parts(slashed) =~= path_parts(base));
        let dotted = slashed.push(46);
        path_splits(dotted, end);
        one_segment(dotted, end + 1, end + 1);
        assert(dotted.subrange(end + 1, end + 2) =~= seq![46u8]);
        assert(dotted.take(end) =~= base);
        assert(path_parts(dotted) =~= path_parts(base));
        let back = dotted.push(46);
        path_splits(back, end);
        one_segment(back, end + 1, end + 1);
        assert(back.subrange(end + 1, end + 3) =~= seq![46u8, 46u8]);
        assert(seq![46u8, 46u8].len() == 2);
        assert(seq![46u8].len() == 1);
        assert(back.take(end) =~= base);
        assert(path_parts(back) =~= path_parts(base).push(Part::Parent));
        if is_plain_name(name) {
            let named = slashed + name;
            assert forall|i: int| end + 1 <= i < named.len() implies named[i] != SEPARATOR by {
                assert(named[i] == name[i - end - 1]);
                assert(name.contains(name[i - end - 1]));
            }
            path_splits(named, end);
            one_segment(named, end + 1, end + 1);
            assert(named.subrange(end + 1, named.len() as int) =~= name);
            assert(named.take(end) =~= base);
            assert(path_parts(named) =~= path_parts(base).push(Part::Name(name)));
        }
    }
    if is_plain_name(name) {
        assert forall|i: int| 0 <= i < name.len() implies name[i] != SEPARATOR by {
            assert(name.contains(name[i]));
        }
        one_segment(name, 0, 0);
        assert(name.subrange(0, name.len() as int) =~= name);
    }
    let dot = seq![46u8];
    one_segment(dot, 0, 0);
    assert(dot.subrange(0, 1) =~= dot);
    let dots = seq![46u8, 46u8];
    one_segment(dots, 0, 0);
    assert(dots.subrange(0, 2) =~= dots);
    assert(dots.len() != dot.len());
}

/// A name is joined behind a slash, unless there is nothing before it or a slash already.
pub proof fn names_are_joined_by_one_slash(base: Seq<u8>, name: Seq<u8>)
    ensures
        joined_spelling(Seq::<u8>::empty(), name) == name,
        base.len() > 0 && base.last() == 47 ==> joined_spelling(base, name) == base + name,
        base.len() > 0 && base.last() != 47 ==> joined_spelling(base, name) == base + seq![47u8] + name,
{
    assert(Seq::<u8>::empty() + name =~= name);
    assert(base.push(47) =~= base + seq![47u8]);
}

/// The directory above a path is what is left without its last component; the empty path and the root
/// have none. The name of a path is its last component, where that is a name.
pub proof fn parents_lack_the_last_component(parts: Seq<Part>, name: Seq<u8>)
    ensures
        StorePath::parent_parts(parts.push(Part::Name(name))) == Some(parts),
        StorePath::parent_parts(parts.push(Part::Parent)) == Some(parts),
        StorePath::parent_parts(parts.push(Part::Root)) is None,
        StorePath::parent_parts(Seq::<Part>::empty()) is None,
        StorePath::name_of(parts.push(Part::Name(name))) == Some(name),
        StorePath::name_of(parts.push(Part::Parent)) is None,
        StorePath::name_of(parts.push(Part::Root)) is None,
        StorePath::name_of(parts.push(Part::Current)) is None,
        StorePath::name_of(Seq::<Part>::empty()) is None,
{
    assert(parts.push(Part::Name(name)).drop_last() =~= parts);
    assert(parts.push(Part::Parent).drop_last() =~= parts);
}

/// A file name has an extension where something, a dot and the extension are all of it; a name that is
/// only a dot and the extension has it not.
pub proof fn extensions_follow_a_dot(stem: Seq<u8>, name: Seq<u8>, extension: Seq<u8>)
    ensures
        stem.len() > 0 ==> has_extension(stem + seq![46u8] + extension, extension),
        !has_extension(seq![46u8] + extension, extension),
        has_extension(name, extension) ==> name == name.take(name.len() - extension.len() - 1) + seq![
            46u8,
        ] + extension,
        name.len() <= extension.len() + 1 ==> !has_extension(name, extension),
{
    let whole = stem + seq![46u8] + extension;
    assert(whole.subrange(stem.len() as int, whole.len() as int) =~= seq![46u8] + extension);
    if has_extension(name, extension) {
        let dot = name.len() - extension.len() - 1;
        assert(name =~= name.take(dot) + name.subrange(dot, name.len() as int));
        assert(name.take(dot) + (seq![46u8] + extension) =~= name.take(dot) + seq![46u8] + extension);
    }
}

} // verus!
