//! The storage that checkpoints refer to, shared with retention and with live guests.

use crate::paths;
use crate::paths::{Part, StorePath};
use crate::text;
use vstd::prelude::*;

verus! {

/// Why a reference cannot be used.
#[derive(Debug)]
pub enum ReferenceFault {
    NotAbsolute { path: StorePath },
    NoParent,
    NoName,
    Unresolved { path: StorePath, source: String },
}

impl ReferenceFault {
    pub open spec fn shown(&self) -> Seq<char> {
        match self {
            ReferenceFault::NotAbsolute { path } => {
                "checkpoint artifact reference must be absolute without parent traversal: "@
                    + path.shown()
            },
            ReferenceFault::NoParent => "reference has no parent"@,
            ReferenceFault::NoName => "reference has no filename"@,
            ReferenceFault::Unresolved { path, source } => "resolve checkpoint reference: "@
                + path.shown() + ": "@ + source@,
        }
    }

    pub fn to_text(&self) -> (shown: String)
        ensures
            shown@ == self.shown(),
    {
        match self {
            ReferenceFault::NotAbsolute { path } => text::concat2(
                "checkpoint artifact reference must be absolute without parent traversal: ",
                path.to_text().as_str(),
            ),
            ReferenceFault::NoParent => "reference has no parent".to_owned(),
            ReferenceFault::NoName => "reference has no filename".to_owned(),
            ReferenceFault::Unresolved { path, source } => text::concat4(
                "resolve checkpoint reference: ",
                path.to_text().as_str(),
                ": ",
                source.as_str(),
            ),
        }
    }
}

/// Whether a reference may be resolved.
pub open spec fn is_reference(parts: Seq<Part>) -> bool {
    StorePath::is_absolute_parts(parts) && !parts.contains(Part::Parent)
}

/// Requires an absolute reference without parent traversal.
pub fn absolute(path: &StorePath) -> (outcome: Result<(), ReferenceFault>)
    ensures
        match outcome {
            Ok(_) => is_reference(path@),
            Err(fault) => !is_reference(path@) && (fault matches ReferenceFault::NotAbsolute {
                path: refused,
            } && refused@ == path@ && refused.spelled() == path.spelled()),
        },
{
    if !path.is_absolute() || path.has_parent_part() {
        return Err(ReferenceFault::NotAbsolute { path: path.copy() });
    }
    Ok(())
}

/// How a reference resolves on a filesystem.
#[derive(Debug)]
pub enum Resolution {
    Resolved { path: StorePath },
    /// Nothing is there, not even a link that leads nowhere.
    Missing,
    Failed { source: String },
}

/// What a reference stands for.
#[derive(Debug)]
pub enum ResolvedReference {
    Path { path: StorePath },
    /// A file of this name below the directory, once that is resolved itself: an evicted cache
    /// entry may be absent.
    Below { parent: StorePath, name: Vec<u8> },
}

/// Goes on with how a reference resolves. Nothing is guessed through a link that leads nowhere, or
/// through a directory that is missing.
pub fn resolve_reference(path: &StorePath, resolution: Resolution) -> (outcome: Result<
    ResolvedReference,
    ReferenceFault,
>)
    ensures
        match resolution {
            Resolution::Resolved { path: resolved } => outcome
                == Ok::<ResolvedReference, ReferenceFault>(
                (ResolvedReference::Path { path: resolved }),
            ),
            Resolution::Missing => match (
                StorePath::parent_parts(path@),
                StorePath::name_of(path@),
            ) {
                (None, _) => outcome matches Err(fault) && fault is NoParent,
                (Some(_), None) => outcome matches Err(fault) && fault is NoName,
                (Some(above), Some(last)) => outcome matches Ok(
                    ResolvedReference::Below { parent, name },
                ) && parent@ == above && name@ == last,
            },
            Resolution::Failed { source } => outcome matches Err(fault)
                && fault matches ReferenceFault::Unresolved { path: refused, source: s } && refused@
                == path@ && refused.spelled() == path.spelled() && s == source,
        },
{
    match resolution {
        Resolution::Resolved { path } => Ok(ResolvedReference::Path { path }),
        Resolution::Missing => {
            let parent = match path.parent() {
                Some(parent) => parent,
                None => return Err(ReferenceFault::NoParent),
            };
            match path.file_name() {
                Some(name) => Ok(ResolvedReference::Below { parent, name }),
                None => Err(ReferenceFault::NoName),
            }
        },
        Resolution::Failed { source } => Err(
            ReferenceFault::Unresolved { path: path.copy(), source },
        ),
    }
}

/// One read-only layer of an image, by its storage alone.
#[derive(Debug)]
pub struct LayerStorage {
    pub file: String,
    pub target_file: String,
    pub gzip_index: String,
    pub dir: String,
}

/// The writable layer of an image, by its storage alone.
#[derive(Debug)]
pub struct UpperStorage {
    pub data: String,
    pub index: String,
    pub target: String,
    pub gzip_index: String,
}

/// An image, by its storage alone. Environment, user metadata, addresses and extension parameters
/// never have a say in what a checkpoint keeps.
#[derive(Debug)]
pub struct ImageStorage {
    pub lowers: Vec<LayerStorage>,
    pub upper: UpperStorage,
}

/// The values that are not empty, in order.
pub open spec fn named(values: Seq<String>) -> Seq<String>
    decreases values.len(),
{
    if values.len() == 0 {
        Seq::empty()
    } else if values.last()@.len() == 0 {
        named(values.drop_last())
    } else {
        named(values.drop_last()).push(values.last())
    }
}

/// The storage fields of a layer.
pub open spec fn layer_fields(layer: LayerStorage) -> Seq<String> {
    seq![layer.file, layer.target_file, layer.gzip_index, layer.dir]
}

/// The storage fields of the writable layer.
pub open spec fn upper_fields(upper: UpperStorage) -> Seq<String> {
    seq![upper.data, upper.index, upper.target, upper.gzip_index]
}

/// The storage fields of all layers, in order.
pub open spec fn lower_fields(lowers: Seq<LayerStorage>) -> Seq<String>
    decreases lowers.len(),
{
    if lowers.len() == 0 {
        Seq::empty()
    } else {
        lower_fields(lowers.drop_last()) + layer_fields(lowers.last())
    }
}

/// Everything that an image refers to, as it is spelled there.
pub open spec fn referenced(image: ImageStorage) -> Seq<String> {
    named(lower_fields(image.lowers@) + upper_fields(image.upper))
}

fn push_named(values: &mut Vec<String>, value: &String, Ghost(fields): Ghost<Seq<String>>)
    requires
        old(values)@ == named(fields),
    ensures
        final(values)@ == named(fields.push(*value)),
{
    proof {
        assert(fields.push(*value).drop_last() =~= fields);
    }
    if !value.as_str().is_empty() {
        values.push(value.clone());
    }
}

/// What an image refers to. Each value has to be an absolute reference.
pub fn image_references(image: &ImageStorage) -> (values: Vec<String>)
    ensures
        values@ == referenced(*image),
{
    let mut values: Vec<String> = Vec::new();
    let mut at: usize = 0;
    while at < image.lowers.len()
        invariant
            at <= image.lowers@.len(),
            values@ == named(lower_fields(image.lowers@.take(at as int))),
        decreases image.lowers@.len() - at,
    {
        let layer = &image.lowers[at];
        let ghost fields = lower_fields(image.lowers@.take(at as int));
        proof {
            assert(image.lowers@.take(at + 1).drop_last() =~= image.lowers@.take(at as int));
        }
        push_named(&mut values, &layer.file, Ghost(fields));
        let ghost fields = fields.push(layer.file);
        push_named(&mut values, &layer.target_file, Ghost(fields));
        let ghost fields = fields.push(layer.target_file);
        push_named(&mut values, &layer.gzip_index, Ghost(fields));
        let ghost fields = fields.push(layer.gzip_index);
        push_named(&mut values, &layer.dir, Ghost(fields));
        let ghost fields = fields.push(layer.dir);
        proof {
            assert(fields =~= lower_fields(image.lowers@.take(at + 1)));
        }
        at += 1;
    }
    assert(image.lowers@.take(at as int) =~= image.lowers@);
    let ghost fields = lower_fields(image.lowers@);
    push_named(&mut values, &image.upper.data, Ghost(fields));
    let ghost fields = fields.push(image.upper.data);
    push_named(&mut values, &image.upper.index, Ghost(fields));
    let ghost fields = fields.push(image.upper.index);
    push_named(&mut values, &image.upper.target, Ghost(fields));
    let ghost fields = fields.push(image.upper.target);
    push_named(&mut values, &image.upper.gzip_index, Ghost(fields));
    let ghost fields = fields.push(image.upper.gzip_index);
    assert(fields =~= lower_fields(image.lowers@) + upper_fields(image.upper));
    values
}

/// What an image refers to, by the path of its configuration and its storage, in order and before
/// any of it is resolved.
pub fn image(path: &StorePath, storage: &ImageStorage) -> (outcome: Result<
    Vec<StorePath>,
    ReferenceFault,
>)
    ensures
        match outcome {
            Ok(references) => {
                &&& references@.len() == referenced(*storage).len() + 1
                &&& references@[0].spelled() == path.spelled()
                &&& forall|i: int|
                    0 <= i < referenced(*storage).len() ==> references@[i + 1].spelled()
                        == text::text_bytes((#[trigger] referenced(*storage)[i])@)
                &&& forall|i: int|
                    0 <= i < references@.len() ==> is_reference((#[trigger] references@[i])@)
            },
            Err(fault) => fault matches ReferenceFault::NotAbsolute { path: refused } && if !is_reference(
                path@,
            ) {
                refused.spelled() == path.spelled()
            } else {
                exists|i: int|
                    {
                        &&& 0 <= i < referenced(*storage).len()
                        &&& refused.spelled() == text::text_bytes(
                            (#[trigger] referenced(*storage)[i])@,
                        )
                        &&& !is_reference(refused@)
                        &&& forall|j: int|
                            0 <= j < i ==> is_reference(
                                paths::path_parts(
                                    text::text_bytes((#[trigger] referenced(*storage)[j])@),
                                ),
                            )
                    }
            },
        },
{
    let mut references: Vec<StorePath> = Vec::new();
    match absolute(path) {
        Ok(_) => {},
        Err(fault) => return Err(fault),
    }
    references.push(path.copy());
    let values = image_references(storage);
    let mut at: usize = 0;
    while at < values.len()
        invariant
            at <= values@.len(),
            values@ == referenced(*storage),
            references@.len() == at + 1,
            references@[0].spelled() == path.spelled(),
            forall|i: int|
                0 <= i < at ==> references@[i + 1].spelled() == text::text_bytes(
                    (#[trigger] referenced(*storage)[i])@,
                ),
            forall|i: int|
                0 <= i < references@.len() ==> is_reference((#[trigger] references@[i])@),
            is_reference(path@),
        decreases values@.len() - at,
    {
        let reference = StorePath::from_text(values[at].as_str());
        match absolute(&reference) {
            Ok(_) => {},
            Err(fault) => {
                assert(reference.spelled() == text::text_bytes(referenced(*storage)[at as int]@));
                assert forall|j: int| 0 <= j < at implies is_reference(
                    paths::path_parts(text::text_bytes((#[trigger] referenced(*storage)[j])@)),
                ) by {
                    assert(is_reference(references@[j + 1]@));
                }
                return Err(fault);
            },
        }
        references.push(reference);
        at += 1;
    }
    Ok(references)
}

/// A reference may be resolved where it starts at the root and has no step to a parent.
pub proof fn references_start_at_the_root(parts: Seq<Part>)
    ensures
        is_reference(parts) ==> parts.len() > 0 && parts[0] is Root,
        is_reference(parts) ==> forall|i: int| 0 <= i < parts.len() ==> !((#[trigger] parts[i])
            is Parent),
        parts.len() > 0 && parts[0] is Root && (forall|i: int|
            0 <= i < parts.len() ==> !((#[trigger] parts[i]) is Parent)) ==> is_reference(parts),
{
    if is_reference(parts) {
        assert forall|i: int| 0 <= i < parts.len() implies !((#[trigger] parts[i]) is Parent) by {
            assert(parts[i] != Part::Parent);
        }
    }
}

/// The values that are told are those that are not empty, in their order.
pub proof fn empty_values_are_left_out(values: Seq<String>, next: String, value: String)
    ensures
        named(Seq::empty()).len() == 0,
        next@.len() > 0 ==> named(values.push(next)) == named(values).push(next),
        next@.len() == 0 ==> named(values.push(next)) == named(values),
        named(values).contains(value) <==> values.contains(value) && value@.len() > 0,
    decreases values.len(),
{
    assert(values.push(next).drop_last() =~= values);
    if values.len() > 0 {
        let rest = values.drop_last();
        let last = values.last();
        empty_values_are_left_out(rest, last, value);
        assert(rest.push(last) =~= values);
        if rest.contains(value) {
            let k = choose|k: int| 0 <= k < rest.len() && rest[k] == value;
            assert(values[k] == value);
        }
        if values.contains(value) {
            let k = choose|k: int| 0 <= k < values.len() && values[k] == value;
            if k < rest.len() {
                assert(rest[k] == value);
            }
        }
        assert(values[values.len() - 1] == last);
        if last@.len() > 0 {
            let before = named(rest);
            let after = named(values);
            assert(after == before.push(last));
            assert(after[before.len() as int] == last);
            if before.contains(value) {
                let k = choose|k: int| 0 <= k < before.len() && before[k] == value;
                assert(after[k] == value);
            }
            if after.contains(value) {
                let k = choose|k: int| 0 <= k < after.len() && after[k] == value;
                if k < before.len() {
                    assert(before[k] == value);
                }
            }
        }
    } else {
        assert(named(values).len() == 0);
    }
}

proof fn layers_hold_their_fields(lowers: Seq<LayerStorage>, value: String)
    ensures
        lower_fields(lowers).contains(value) <==> exists|i: int|
            {
                &&& 0 <= i < lowers.len()
                &&& {
                    ||| (#[trigger] lowers[i]).file == value
                    ||| lowers[i].target_file == value
                    ||| lowers[i].gzip_index == value
                    ||| lowers[i].dir == value
                }
            },
    decreases lowers.len(),
{
    if lowers.len() > 0 {
        let rest = lowers.drop_last();
        let last = lowers.last();
        let before = lower_fields(rest);
        let own = layer_fields(last);
        let all = lower_fields(lowers);
        layers_hold_their_fields(rest, value);
        assert(all == before + own);
        assert(own[0] == last.file && own[1] == last.target_file && own[2] == last.gzip_index
            && own[3] == last.dir && own.len() == 4);
        assert(lowers[lowers.len() - 1] == last);
        if before.contains(value) {
            let k = choose|k: int| 0 <= k < before.len() && before[k] == value;
            assert(all[k] == value);
            let i = choose|i: int|
                {
                    &&& 0 <= i < rest.len()
                    &&& {
                        ||| (#[trigger] rest[i]).file == value
                        ||| rest[i].target_file == value
                        ||| rest[i].gzip_index == value
                        ||| rest[i].dir == value
                    }
                };
            assert(lowers[i] == rest[i]);
        } else {
            if all.contains(value) {
                let k = choose|k: int| 0 <= k < all.len() && all[k] == value;
                if k < before.len() {
                    assert(before[k] == value);
                } else {
                    assert(own[k - before.len()] == value);
                }
            }
            let at = before.len() as int;
            assert(all[at] == own[0] && all[at + 1] == own[1] && all[at + 2] == own[2] && all[at + 3]
                == own[3]);
            if exists|i: int|
                {
                    &&& 0 <= i < lowers.len()
                    &&& {
                        ||| (#[trigger] lowers[i]).file == value
                        ||| lowers[i].target_file == value
                        ||| lowers[i].gzip_index == value
                        ||| lowers[i].dir == value
                    }
                } {
                let i = choose|i: int|
                    {
                        &&& 0 <= i < lowers.len()
                        &&& {
                            ||| (#[trigger] lowers[i]).file == value
                            ||| lowers[i].target_file == value
                            ||| lowers[i].gzip_index == value
                            ||| lowers[i].dir == value
                        }
                    };
                if i < rest.len() {
                    assert(rest[i] == lowers[i]);
                }
            }
        }
    } else {
        assert(lower_fields(lowers).len() == 0);
    }
}

/// An image refers to every storage field of each of its layers and of its writable layer that is not
/// empty, and to nothing else.
pub proof fn images_refer_to_all_of_their_storage(image: ImageStorage, value: String)
    ensures
        referenced(image).contains(value) <==> value@.len() > 0 && {
            ||| exists|i: int|
                {
                    &&& 0 <= i < image.lowers@.len()
                    &&& {
                        ||| (#[trigger] image.lowers@[i]).file == value
                        ||| image.lowers@[i].target_file == value
                        ||| image.lowers@[i].gzip_index == value
                        ||| image.lowers@[i].dir == value
                    }
                }
            ||| image.upper.data == value
            ||| image.upper.index == value
            ||| image.upper.target == value
            ||| image.upper.gzip_index == value
        },
{
    let lowers = lower_fields(image.lowers@);
    let own = upper_fields(image.upper);
    let all = lowers + own;
    empty_values_are_left_out(all, value, value);
    layers_hold_their_fields(image.lowers@, value);
    assert(own.len() == 4 && own[0] == image.upper.data && own[1] == image.upper.index && own[2]
        == image.upper.target && own[3] == image.upper.gzip_index);
    let at = lowers.len() as int;
    assert(all[at] == own[0] && all[at + 1] == own[1] && all[at + 2] == own[2] && all[at + 3]
        == own[3]);
    if lowers.contains(value) {
        let k = choose|k: int| 0 <= k < lowers.len() && lowers[k] == value;
        assert(all[k] == value);
    }
    if all.contains(value) {
        let k = choose|k: int| 0 <= k < all.len() && all[k] == value;
        if k < lowers.len() {
            assert(lowers[k] == value);
        } else {
            assert(own[k - lowers.len()] == value);
        }
    }
}

/// What is told of a reference that is refused names its path, and why it could not be resolved.
pub proof fn refused_references_are_named(told: ReferenceFault)
    ensures
        told matches ReferenceFault::NotAbsolute { path } ==> text::mentions(told.shown(), path.shown()),
        told matches ReferenceFault::Unresolved { path, source } ==> text::mentions(
            told.shown(),
            path.shown(),
        ) && text::mentions(told.shown(), source@),
{
    broadcast use {text::the_end_is_mentioned, text::the_beginning_mentions};

}

} // verus!
