//! Delivery payloads, the publisher's per-message command, and the model of
//! queue declaration at publisher startup.
use vstd::prelude::*;

use crate::textenc::clone_bytes;

verus! {

/// One accepted webhook on its way to the broker: the originating request
/// id, the destination queue, the content type to tag the message with,
/// and the raw body bytes. Created once per accepted request, consumed
/// exactly once by the publisher.
pub struct Payload {
    pub request_id: String,
    pub qname: String,
    pub mime_type: String,
    pub body: Vec<u8>,
}

/// Everything the publisher hands the broker for one message: publish to
/// the default exchange under the queue name as routing key, tagging the
/// message with its content type and with the originating request id as
/// message id.
pub struct PublishCommand {
    pub exchange: String,
    pub routing_key: String,
    pub content_type: String,
    pub message_id: String,
    pub body: Vec<u8>,
}

/// Builds the broker command for one payload: the queue name becomes the
/// routing key on the default (empty-named) exchange, the payload's content
/// type and request id become the message's content-type and message-id
/// metadata, and the body travels unchanged.
pub fn publish_command(p: &Payload) -> (r: PublishCommand)
    ensures
        r.exchange@ == Seq::<char>::empty(),
        r.routing_key@ == p.qname@,
        r.content_type@ == p.mime_type@,
        r.message_id@ == p.request_id@,
        r.body@ == p.body@,
{
    PublishCommand {
        exchange: String::new(),
        routing_key: p.qname.clone(),
        content_type: p.mime_type.clone(),
        message_id: p.request_id.clone(),
        body: clone_bytes(&p.body),
    }
}

/// The broker's set of existing queues after the manifest has been declared
/// on it, name by name in manifest order: declaring a queue that already
/// exists is a no-op, so each name is simply added to the set.
pub open spec fn declared_after(declared: Set<Seq<char>>, manifest: Seq<Seq<char>>) -> Set<
    Seq<char>,
>
    decreases manifest.len(),
{
    if manifest.len() == 0 {
        declared
    } else {
        declared_after(declared.insert(manifest[0]), manifest.drop_first())
    }
}

/// After declaring a manifest, the broker holds exactly the queues it held
/// before plus the names the manifest lists.
pub proof fn lemma_declared_after_membership(declared: Set<Seq<char>>, manifest: Seq<Seq<char>>)
    ensures
        forall|q: Seq<char>|
            declared_after(declared, manifest).contains(q) <==> declared.contains(q)
                || manifest.contains(q),
    decreases manifest.len(),
{
    if manifest.len() == 0 {
        assert(forall|q: Seq<char>| !manifest.contains(q));
    } else {
        lemma_declared_after_membership(declared.insert(manifest[0]), manifest.drop_first());
        assert forall|q: Seq<char>|
            declared_after(declared, manifest).contains(q) <==> declared.contains(q)
                || manifest.contains(q) by {
            if manifest.contains(q) {
                let i = choose|i: int| 0 <= i < manifest.len() && manifest[i] == q;
                if i > 0 {
                    assert(manifest.drop_first()[i - 1] == q);
                }
            }
            if manifest.drop_first().contains(q) {
                let i = choose|i: int|
                    0 <= i < manifest.drop_first().len() && manifest.drop_first()[i] == q;
                assert(manifest[i + 1] == q);
            }
        }
    }
}

/// Declaring on an empty broker creates exactly the queue names the
/// manifest lists, and nothing else.
pub proof fn lemma_declare_manifest_exact(manifest: Seq<Seq<char>>)
    ensures
        forall|q: Seq<char>|
            declared_after(Set::empty(), manifest).contains(q) <==> manifest.contains(q),
{
    lemma_declared_after_membership(Set::empty(), manifest);
}

/// Declaring the same manifest twice leaves the broker exactly as one
/// declaration does: re-declaring an existing queue is a no-op.
pub proof fn lemma_declare_idempotent(declared: Set<Seq<char>>, manifest: Seq<Seq<char>>)
    ensures
        declared_after(declared_after(declared, manifest), manifest) == declared_after(
            declared,
            manifest,
        ),
{
    lemma_declared_after_membership(declared, manifest);
    lemma_declared_after_membership(declared_after(declared, manifest), manifest);
    assert(declared_after(declared_after(declared, manifest), manifest) =~= declared_after(
        declared,
        manifest,
    ));
}

} // verus!
