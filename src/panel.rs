use vstd::prelude::*;
use crate::scene::{Message, Node, NodeHandle};
use crate::section::{SinkClosed, SpriteSection};
use crate::ui::{Ui, UiMessage};

verus! {

/// The writes that syncing every section of `sections`, in order, queues.
pub open spec fn sync_all_messages(sections: Seq<SpriteSection>, node: Node) -> Seq<UiMessage>
    decreases sections.len(),
{
    if sections.len() == 0 {
        Seq::empty()
    } else {
        sync_all_messages(sections.drop_last(), node) + sections.last().sync_messages(node)
    }
}

/// Section `k` is the first of `sections` that asks for a command on `message`.
pub open spec fn first_claim(
    sections: Seq<SpriteSection>,
    k: int,
    message: UiMessage,
    node: Node,
    handle: NodeHandle,
) -> bool {
    &&& 0 <= k < sections.len()
    &&& sections[k].routed(message, node, handle) is Some
    &&& forall|j: int| 0 <= j < k ==> (#[trigger] sections[j].routed(message, node, handle)) is None
}

/// Brings every section, in order, up to date with `node`.
pub fn sync_all(sections: &Vec<SpriteSection>, node: &Node, ui: &mut Ui)
    requires
        forall|i: int| 0 <= i < sections.len() ==> (#[trigger] sections[i]).wf(),
    ensures
        final(ui)@ == old(ui)@ + sync_all_messages(sections@, *node),
{
    let ghost before = ui@;
    let mut i: usize = 0;
    while i < sections.len()
        invariant
            i <= sections.len(),
            forall|j: int| 0 <= j < sections.len() ==> (#[trigger] sections[j]).wf(),
            ui@ == before + sync_all_messages(sections@.subrange(0, i as int), *node),
        decreases sections.len() - i,
    {
        sections[i].sync_to_model(node, ui);
        proof {
            let done = sections@.subrange(0, i as int + 1);
            assert(done.drop_last() =~= sections@.subrange(0, i as int));
            assert(done.last() == sections@[i as int]);
            assert(ui@ =~= before + sync_all_messages(done, *node));
        }
        i = i + 1;
    }
    assert(sections@.subrange(0, sections.len() as int) =~= sections@);
}

/// Hands a message from the user interface to the first section that asks
/// for a command on it, which sends that command; the others are left as
/// they are. With no such section nothing is sent.
pub fn on_notification(
    sections: &mut Vec<SpriteSection>,
    message: &UiMessage,
    node: &Node,
    handle: NodeHandle,
) -> (r: Result<(), SinkClosed>)
    ensures
        final(sections).len() == old(sections).len(),
        forall|i: int|
            0 <= i < old(sections).len() ==> (#[trigger] final(sections)[i]).bindings() == old(
                sections,
            )[i].bindings() && final(sections)[i].container() == old(sections)[i].container(),
        (forall|i: int|
            0 <= i < old(sections).len() ==> (#[trigger] old(sections)[i].routed(
                *message,
                *node,
                handle,
            )) is None) ==> r is Ok && final(sections)@ == old(sections)@,
        forall|k: int|
            #[trigger] first_claim(old(sections)@, k, *message, *node, handle) ==> {
                let c = old(sections)[k].routed(*message, *node, handle)->Some_0;
                &&& forall|i: int|
                    0 <= i < old(sections).len() && i != k ==> #[trigger] final(sections)[i]
                        == old(sections)[i]
                &&& (r is Ok && final(sections)[k].sent() == old(sections)[k].sent().push(
                    Message::DoSceneCommand(c),
                )) || (r == Err::<(), SinkClosed>(
                    SinkClosed { unsent: Message::DoSceneCommand(c) },
                ) && final(sections)[k].sent() == old(sections)[k].sent())
            },
{
    let mut i: usize = 0;
    while i < sections.len()
        invariant
            i <= sections.len(),
            sections@ == old(sections)@,
            forall|j: int| 0 <= j < i ==> (#[trigger] sections[j].routed(*message, *node, handle)) is None,
        decreases sections.len() - i,
    {
        if sections[i].route(message, node, handle).is_some() {
            assert(first_claim(old(sections)@, i as int, *message, *node, handle));
            let mut s = sections.remove(i);
            let r = s.handle_message(message, node, handle);
            sections.insert(i, s);
            assert forall|k: int| #[trigger]
                first_claim(old(sections)@, k, *message, *node, handle) implies k == i by {
                if k < i {
                } else if k > i {
                    assert(old(sections)@[i as int].routed(*message, *node, handle) is Some);
                }
            };
            return r;
        }
        i = i + 1;
    }
    Ok(())
}

} // verus!
