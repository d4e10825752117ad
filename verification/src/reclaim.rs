//! Which stored attachments no slide refers to any more, and the sweep that
//! deletes them one by one under the store's revision protocol.

use crate::model::{get_attachment_key_from_slide, Slide, SlideshowDocument};
use crate::text::{list_contains, texts};
use vstd::prelude::*;

verus! {

/// The attachment names that the image and video slides refer to, in slide
/// order, each where it first occurs.
pub open spec fn referenced_keys(slides: Seq<Slide>) -> Seq<Seq<char>>
    decreases slides.len(),
{
    if slides.len() == 0 {
        Seq::<Seq<char>>::empty()
    } else {
        let before = referenced_keys(slides.drop_last());
        let slide = slides.last();
        if slide.kind().uses_attachment() && !before.contains(slide.attachment_key()) {
            before.push(slide.attachment_key())
        } else {
            before
        }
    }
}

/// The names of `stored` that are not among `referenced`, in the order of
/// `stored`, each where it first occurs.
pub open spec fn unused_names(stored: Seq<Seq<char>>, referenced: Seq<Seq<char>>) -> Seq<
    Seq<char>,
>
    decreases stored.len(),
{
    if stored.len() == 0 {
        Seq::<Seq<char>>::empty()
    } else {
        let before = unused_names(stored.drop_last(), referenced);
        let name = stored.last();
        if !referenced.contains(name) && !before.contains(name) {
            before.push(name)
        } else {
            before
        }
    }
}

/// The stored attachments of a document that none of its slides refers to.
pub open spec fn unused_of(doc: SlideshowDocument) -> Seq<Seq<char>> {
    unused_names(doc.attachment_names(), referenced_keys(doc.slide_seq()))
}

/// The attachment names that the document's image and video slides refer to.
/// Website slides refer to no stored attachment.
pub fn get_referenced_attachments_from_doc(doc: &SlideshowDocument) -> (referenced: Vec<String>)
    ensures
        texts(referenced@) == referenced_keys(doc.slide_seq()),
{
    let mut referenced: Vec<String> = Vec::new();
    match &doc.slides {
        Some(slides) => {
            let mut i: usize = 0;
            assert(slides@.subrange(0, 0) =~= Seq::<Slide>::empty());
            assert(texts(referenced@) =~= Seq::<Seq<char>>::empty());
            while i < slides.len()
                invariant
                    i <= slides@.len(),
                    texts(referenced@) == referenced_keys(slides@.subrange(0, i as int)),
                decreases slides@.len() - i,
            {
                let slide = &slides[i];
                let ghost before = texts(referenced@);
                proof {
                    let upto = slides@.subrange(0, i + 1);
                    assert(upto.drop_last() =~= slides@.subrange(0, i as int));
                    assert(upto.last() == slides@[i as int]);
                }
                if slide.get_kind().references_attachment() {
                    let key = get_attachment_key_from_slide(slide);
                    if !list_contains(&referenced, key.as_str()) {
                        referenced.push(key);
                        assert(texts(referenced@) =~= before.push(key@));
                    }
                }
                i = i + 1;
            }
            assert(slides@.subrange(0, i as int) =~= slides@);
        },
        None => {
            assert(texts(referenced@) =~= Seq::<Seq<char>>::empty());
        },
    }
    referenced
}

/// The stored attachments of the document that none of its slides refers
/// to, in the document's order.
pub fn unused_attachments(doc: &SlideshowDocument) -> (unused: Vec<String>)
    ensures
        texts(unused@) == unused_of(*doc),
{
    let referenced = get_referenced_attachments_from_doc(doc);
    let mut unused: Vec<String> = Vec::new();
    assert(texts(unused@) =~= Seq::<Seq<char>>::empty());
    match &doc._attachments {
        Some(stored) => {
            let mut i: usize = 0;
            assert(doc.attachment_names().subrange(0, 0) =~= Seq::<Seq<char>>::empty());
            while i < stored.len()
                invariant
                    i <= stored@.len(),
                    doc._attachments == Some(*stored),
                    texts(referenced@) == referenced_keys(doc.slide_seq()),
                    texts(unused@) == unused_names(
                        doc.attachment_names().subrange(0, i as int),
                        texts(referenced@),
                    ),
                decreases stored@.len() - i,
            {
                let name = &stored[i].0;
                let ghost before = texts(unused@);
                proof {
                    let upto = doc.attachment_names().subrange(0, i + 1);
                    assert(upto.drop_last() =~= doc.attachment_names().subrange(0, i as int));
                    assert(upto.last() == name@);
                }
                if !list_contains(&referenced, name.as_str()) && !list_contains(
                    &unused,
                    name.as_str(),
                ) {
                    unused.push(name.clone());
                    assert(texts(unused@) =~= before.push(name@));
                }
                i = i + 1;
            }
            assert(doc.attachment_names().subrange(0, i as int) =~= doc.attachment_names());
        },
        None => {},
    }
    unused
}

/// A name is among the referenced keys exactly when an image or video slide
/// has it as its attachment key, and no name is listed twice.
pub proof fn lemma_referenced_keys(slides: Seq<Slide>)
    ensures
        referenced_keys(slides).no_duplicates(),
        forall|key: Seq<char>| #[trigger]
            referenced_keys(slides).contains(key) <==> exists|i: int|
                0 <= i < slides.len() && slides[i].kind().uses_attachment()
                    && #[trigger] slides[i].attachment_key() == key,
    decreases slides.len(),
{
    if slides.len() > 0 {
        let head = slides.drop_last();
        let slide = slides.last();
        let before = referenced_keys(head);
        lemma_referenced_keys(head);
        assert forall|key: Seq<char>| #[trigger]
            referenced_keys(slides).contains(key) implies exists|i: int|
            0 <= i < slides.len() && slides[i].kind().uses_attachment()
                && #[trigger] slides[i].attachment_key() == key by {
            if before.contains(key) {
                let i = choose|i: int|
                    0 <= i < head.len() && head[i].kind().uses_attachment()
                        && #[trigger] head[i].attachment_key() == key;
                assert(slides[i] == head[i]);
            } else {
                let at = choose|at: int|
                    0 <= at < referenced_keys(slides).len() && referenced_keys(slides)[at] == key;
                if at < before.len() {
                    assert(before[at] == key);
                    assert(before.contains(key));
                }
                assert(slides[slides.len() - 1].attachment_key() == key);
            }
        }
        assert forall|key: Seq<char>|
            (exists|i: int|
                0 <= i < slides.len() && slides[i].kind().uses_attachment()
                    && #[trigger] slides[i].attachment_key() == key) implies #[trigger]
            referenced_keys(slides).contains(key) by {
            let i = choose|i: int|
                0 <= i < slides.len() && slides[i].kind().uses_attachment()
                    && #[trigger] slides[i].attachment_key() == key;
            if i < head.len() {
                assert(head[i] == slides[i]);
                assert(before.contains(key));
                let at = choose|at: int| 0 <= at < before.len() && before[at] == key;
                assert(referenced_keys(slides)[at] == key);
            } else {
                if before.contains(key) {
                    let at = choose|at: int| 0 <= at < before.len() && before[at] == key;
                    assert(referenced_keys(slides)[at] == key);
                } else {
                    assert(referenced_keys(slides) == before.push(key));
                    assert(before.push(key)[before.len() as int] == key);
                }
            }
        }
    }
}

/// A name is among the unused names exactly when it is stored and not
/// referenced, and no name is listed twice.
pub proof fn lemma_unused_names(stored: Seq<Seq<char>>, referenced: Seq<Seq<char>>)
    ensures
        unused_names(stored, referenced).no_duplicates(),
        forall|name: Seq<char>| #[trigger]
            unused_names(stored, referenced).contains(name) <==> stored.contains(name)
                && !referenced.contains(name),
    decreases stored.len(),
{
    if stored.len() > 0 {
        let head = stored.drop_last();
        let last = stored.last();
        let before = unused_names(head, referenced);
        let all = unused_names(stored, referenced);
        lemma_unused_names(head, referenced);
        assert forall|name: Seq<char>| #[trigger] all.contains(name) implies stored.contains(name)
            && !referenced.contains(name) by {
            if before.contains(name) {
                assert(head.contains(name));
                let i = choose|i: int| 0 <= i < head.len() && head[i] == name;
                assert(stored[i] == name);
            } else {
                let at = choose|at: int| 0 <= at < all.len() && all[at] == name;
                if at < before.len() {
                    assert(before[at] == name);
                }
                assert(name == last);
                assert(stored[stored.len() - 1] == name);
            }
        }
        assert forall|name: Seq<char>|
            stored.contains(name) && !referenced.contains(name) implies #[trigger] all.contains(
            name,
        ) by {
            let i = choose|i: int| 0 <= i < stored.len() && stored[i] == name;
            if i < head.len() {
                assert(head[i] == name);
                assert(head.contains(name));
            }
            if before.contains(name) {
                let at = choose|at: int| 0 <= at < before.len() && before[at] == name;
                assert(all[at] == name);
            } else {
                assert(name == last);
                assert(all == before.push(name));
                assert(before.push(name)[before.len() as int] == name);
            }
        }
    }
}

/// A later sweep never names again what an earlier one deleted: a name that
/// the store no longer holds is not among the unused names, whatever the
/// slides say by then; and where the stored names only shrank while the
/// references stayed, the unused names only shrank too.
pub proof fn lemma_later_sweep_skips_deleted(
    stored: Seq<Seq<char>>,
    later: Seq<Seq<char>>,
    referenced: Seq<Seq<char>>,
    later_referenced: Seq<Seq<char>>,
    name: Seq<char>,
)
    ensures
        !later.contains(name) ==> !unused_names(later, later_referenced).contains(name),
        (forall|n: Seq<char>| later.contains(n) ==> stored.contains(n)) ==> (unused_names(
            later,
            referenced,
        ).contains(name) ==> unused_names(stored, referenced).contains(name)),
{
    lemma_unused_names(later, later_referenced);
    lemma_unused_names(later, referenced);
    lemma_unused_names(stored, referenced);
}

} // verus!
