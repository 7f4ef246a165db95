//! The client's own types and rules.

use crate::assoc::{AssocList, Key, KeySet};
use crate::strng::{new, same_text, share, strng_chars, text_of, Strng};
use crate::text::texts;
use crate::xds::proto::{
    resource_names, DeltaDiscoveryRequest, DeltaDiscoveryResponse, Resource as ProtoResource, Status,
};
use std::marker::PhantomData;
use vstd::prelude::*;

verus! {

/// `prost::DecodeError`, carried as it is.
#[verifier::external_type_specification]
#[verifier::external_body]
pub struct ExDecodeError(prost::DecodeError);

/// `prost::EncodeError`, carried as it is.
#[verifier::external_type_specification]
#[verifier::external_body]
pub struct ExEncodeError(prost::EncodeError);

/// What a decoding error says of itself.
pub uninterp spec fn decode_error_chars(e: prost::DecodeError) -> Seq<char>;

/// What an encoding error says of itself.
pub uninterp spec fn encode_error_chars(e: prost::EncodeError) -> Seq<char>;

/// The message of a decoding error.
///
/// Trusted: the `Display` of `prost::DecodeError` writes a fixed lead, the
/// path of fields at which decoding failed, and the cause, all of them held
/// in the error; the text is a function of the error.
#[verifier::external_body]
fn decode_error_text(e: &prost::DecodeError) -> (r: String)
    ensures
        r@ == decode_error_chars(*e),
{
    e.to_string()
}

/// The message of an encoding error.
///
/// Trusted: the `Display` of `prost::EncodeError` writes a fixed text with
/// the two buffer sizes held in the error; the text is a function of the
/// error.
#[verifier::external_body]
fn encode_error_text(e: &prost::EncodeError) -> (r: String)
    ensures
        r@ == encode_error_chars(*e),
{
    e.to_string()
}

/// The identity of a cached resource: its type and its name.
#[derive(Eq, Hash, PartialEq, Debug)]
pub struct ResourceKey {
    pub name: Strng,
    pub type_url: Strng,
}

impl Key for ResourceKey {
    /// Type first, then name.
    type Id = (Seq<char>, Seq<char>);

    open spec fn id(&self) -> (Seq<char>, Seq<char>) {
        (strng_chars(self.type_url), strng_chars(self.name))
    }

    fn same(&self, other: &Self) -> (r: bool) {
        same_text(&self.type_url, &other.type_url) && same_text(&self.name, &other.name)
    }

    fn duplicate(&self) -> (r: Self) {
        ResourceKey { name: share(&self.name), type_url: share(&self.type_url) }
    }
}

impl ResourceKey {
    /// The key as text: type, a slash, name.
    pub open spec fn text(&self) -> Seq<char> {
        strng_chars(self.type_url) + seq!['/'] + strng_chars(self.name)
    }

    /// The key as text: type, a slash, name.
    pub fn to_string(&self) -> (r: String)
        ensures
            r@ == self.text(),
    {
        let mut out = crate::strng::to_string(&self.type_url);
        proof {
            reveal_strlit("/");
            assert("/"@ =~= seq!['/']);
        }
        out.append("/");
        out.append(text_of(&self.name));
        out
    }
}

impl Clone for ResourceKey {
    fn clone(&self) -> (r: Self)
        ensures
            r.id() == self.id(),
    {
        self.duplicate()
    }
}

/// A resource that was turned down, and why.
#[derive(Debug)]
pub struct RejectedConfig {
    name: Strng,
    reason: String,
}

impl RejectedConfig {
    /// The name of the resource and the reason, by their characters.
    pub closed spec fn view(&self) -> (Seq<char>, Seq<char>) {
        (strng_chars(self.name), self.reason@)
    }

    /// The rejection as text: name, colon, space, reason.
    pub open spec fn text(&self) -> Seq<char> {
        self@.0 + seq![':', ' '] + self@.1
    }

    pub fn new(name: Strng, reason: String) -> (r: Self)
        ensures
            r@ == (strng_chars(name), reason@),
    {
        Self { name, reason }
    }

    /// The rejection as text: name, colon, space, reason.
    pub fn to_string(&self) -> (r: String)
        ensures
            r@ == self.text(),
    {
        let mut out = crate::strng::to_string(&self.name);
        proof {
            reveal_strlit(": ");
            assert(": "@ =~= seq![':', ' ']);
        }
        out.append(": ");
        out.append(self.reason.as_str());
        out
    }
}

/// The rejections of a list, each by name and reason.
pub open spec fn rejections(v: Seq<RejectedConfig>) -> Seq<(Seq<char>, Seq<char>)> {
    Seq::new(v.len(), |i: int| v[i]@)
}

/// A decoded resource under its name.
#[derive(Debug)]
pub struct XdsResource<T> {
    pub name: Strng,
    pub resource: T,
}

/// One change that a response asks for.
#[derive(Debug)]
pub enum XdsUpdate<T> {
    Update(XdsResource<T>),
    Remove(Strng),
}

impl<T> XdsUpdate<T> {
    /// The name of the resource that the change is about.
    pub open spec fn name_chars(&self) -> Seq<char> {
        match self {
            XdsUpdate::Update(r) => strng_chars(r.name),
            XdsUpdate::Remove(n) => strng_chars(*n),
        }
    }

    /// The name of the resource that the change is about.
    pub fn name(&self) -> (r: Strng)
        ensures
            strng_chars(r) == self.name_chars(),
    {
        match self {
            XdsUpdate::Update(r) => share(&r.name),
            XdsUpdate::Remove(n) => share(n),
        }
    }
}

/// What can be wrong with a resource as it arrives or leaves.
#[derive(Debug)]
pub enum AdsError {
    UnknownResourceType(String),
    Decode(prost::DecodeError),
    MissingResource(),
    Encode(prost::EncodeError),
}

impl AdsError {
    /// The error as text.
    pub open spec fn text(&self) -> Seq<char> {
        match self {
            AdsError::UnknownResourceType(t) => "unknown resource type: "@ + t@,
            AdsError::Decode(e) => "decode: "@ + decode_error_chars(*e),
            AdsError::MissingResource() => "XDS payload without resource"@,
            AdsError::Encode(e) => "encode: "@ + encode_error_chars(*e),
        }
    }

    /// The error as text.
    pub fn to_string(&self) -> (r: String)
        ensures
            r@ == self.text(),
    {
        match self {
            AdsError::UnknownResourceType(t) => {
                let mut out = "unknown resource type: ".to_owned();
                out.append(t.as_str());
                out
            },
            AdsError::Decode(e) => {
                let mut out = "decode: ".to_owned();
                let text = decode_error_text(e);
                out.append(text.as_str());
                out
            },
            AdsError::MissingResource() => "XDS payload without resource".to_owned(),
            AdsError::Encode(e) => {
                let mut out = "encode: ".to_owned();
                let text = encode_error_text(e);
                out.append(text.as_str());
                out
            },
        }
    }
}

/// Name and reason of each change that was turned down, in order: `outcomes`
/// holds what came back for each of `updates`.
pub open spec fn rejected_by<T>(updates: Seq<XdsUpdate<T>>, outcomes: Seq<Result<(), String>>) -> Seq<
    (Seq<char>, Seq<char>),
>
    decreases updates.len(),
{
    if updates.len() == 0 || outcomes.len() != updates.len() {
        Seq::empty()
    } else {
        let rest = rejected_by(updates.drop_last(), outcomes.drop_last());
        match outcomes.last() {
            Err(e) => rest.push((updates.last().name_chars(), e@)),
            Ok(_) => rest,
        }
    }
}

/// `r` reports exactly the rejections `rejected`: success where there is
/// none, else all of them in order.
pub open spec fn reports(r: Result<(), Vec<RejectedConfig>>, rejected: Seq<(Seq<char>, Seq<char>)>) -> bool {
    match r {
        Ok(_) => rejected.len() == 0,
        Err(v) => rejected.len() > 0 && rejections(v@) == rejected,
    }
}

/// Hands each change to `handle_one`, one by one and in order, and gathers
/// the ones that it turned down, each under the name of its resource.
pub fn handle_single_resource<T, F: Fn(XdsUpdate<T>) -> Result<(), String>>(
    updates: Vec<XdsUpdate<T>>,
    handle_one: F,
) -> (r: Result<(), Vec<RejectedConfig>>)
    requires
        forall|i: int| 0 <= i < updates@.len() ==> call_requires(handle_one, (#[trigger] updates@[i],)),
    ensures
        exists|outcomes: Seq<Result<(), String>>|
            {
                &&& outcomes.len() == updates@.len()
                &&& forall|i: int|
                    0 <= i < updates@.len() ==> call_ensures(
                        handle_one,
                        (updates@[i],),
                        #[trigger] outcomes[i],
                    )
                &&& reports(r, rejected_by(updates@, outcomes))
            },
{
    let mut rejects: Vec<RejectedConfig> = Vec::new();
    let ghost all = updates@;
    let ghost mut outcomes: Seq<Result<(), String>> = Seq::empty();
    proof {
        assert(all.take(0) =~= Seq::empty());
    }
    for res in it: updates
        invariant
            it.seq() == all,
            forall|i: int| 0 <= i < all.len() ==> call_requires(handle_one, (#[trigger] all[i],)),
            outcomes.len() == it.index(),
            forall|i: int|
                0 <= i < it.index() ==> call_ensures(handle_one, (all[i],), #[trigger] outcomes[i]),
            rejections(rejects@) == rejected_by(all.take(it.index() as int), outcomes),
    {
        let ghost i = it.index() as int;
        let ghost before = rejections(rejects@);
        let name = res.name();
        let outcome = handle_one(res);
        proof {
            let prior = outcomes;
            outcomes = outcomes.push(outcome);
            assert(all.take(i + 1).drop_last() =~= all.take(i));
            assert(all.take(i + 1).last() == all[i]);
            assert(outcomes.drop_last() =~= prior);
        }
        if let Err(e) = outcome {
            rejects.push(RejectedConfig::new(name, e));
            proof {
                assert(rejections(rejects@) =~= before.push((all[i].name_chars(), e@)));
            }
        } else {
            proof {
                assert(rejections(rejects@) =~= before);
            }
        }
    }
    proof {
        assert(all.take(all.len() as int) =~= all);
    }
    if rejects.len() == 0 {
        Ok(())
    } else {
        Err(rejects)
    }
}

/// A payload type: it can be read from the bytes of a resource.
pub trait ProtoMessage: Sized {
    /// The message that `bytes` encode, or why they encode none.
    fn decode(bytes: &[u8]) -> Result<Self, prost::DecodeError>;
}

/// What one type of resource is handed to. A handler takes the changes of a
/// response, applies them to state of its own, and reports what it turned
/// down.
pub trait Handler<T>: Send + Sync + 'static {
    /// Whether this type is always subscribed to as a whole, also where the
    /// client fetches on demand.
    fn no_on_demand(&self) -> bool {
        false
    }

    /// Applies the changes of one response.
    fn handle(&self, res: Vec<XdsUpdate<T>>) -> Result<(), Vec<RejectedConfig>>;
}

/// The resource under `name` that came of decoding its payload: the decoded
/// value, or the error that names what went wrong. `None` stands for a
/// resource that carried no payload.
pub fn resource_from<T>(name: &str, decoded: Option<Result<T, prost::DecodeError>>) -> (r: Result<
    XdsResource<T>,
    AdsError,
>)
    ensures
        match decoded {
            None => r matches Err(AdsError::MissingResource()),
            Some(Err(e)) => r matches Err(AdsError::Decode(f)) && f == e,
            Some(Ok(v)) => r matches Ok(x) && x.resource == v && strng_chars(x.name) == name@,
        },
{
    match decoded {
        None => Err(AdsError::MissingResource()),
        Some(Err(e)) => Err(AdsError::Decode(e)),
        Some(Ok(v)) => Ok(XdsResource { name: new(name), resource: v }),
    }
}

/// `outcome` is something that decoding `resource` as a `T` can give: the
/// words for a missing payload exactly where there is none; else what the
/// payload type's own decoding makes of the payload's bytes, under the
/// resource's name where that is a value and as a decoding error where it is
/// an error.
pub open spec fn is_decode_of<T: ProtoMessage>(resource: ProtoResource, outcome: Result<XdsResource<T>, AdsError>) -> bool {
    match outcome {
        Ok(x) => {
            &&& strng_chars(x.name) == resource.name@
            &&& resource.resource matches Some(any)
            &&& exists|bytes: &[u8]|
                bytes@ == any.value@ && #[trigger] call_ensures(
                    T::decode,
                    (bytes,),
                    Ok::<T, prost::DecodeError>(x.resource),
                )
        },
        Err(AdsError::MissingResource()) => resource.resource.is_none(),
        Err(AdsError::Decode(e)) => {
            &&& resource.resource matches Some(any)
            &&& exists|bytes: &[u8]|
                bytes@ == any.value@ && #[trigger] call_ensures(
                    T::decode,
                    (bytes,),
                    Err::<T, prost::DecodeError>(e),
                )
        },
        Err(_) => false,
    }
}

/// Decodes the payload of a resource as a `T`.
///
/// A resource without payload gives `MissingResource`, and no other does.
/// The payload's bytes, and nothing else, are handed to the payload type's
/// decoding: a value comes back under the resource's name, an error as
/// `Decode`.
pub fn decode_proto<T: ProtoMessage>(resource: &ProtoResource) -> (r: Result<XdsResource<T>, AdsError>)
    ensures
        is_decode_of(*resource, r),
{
    let decoded = match &resource.resource {
        Some(any) => Some(T::decode(any.value.as_slice())),
        None => None,
    };
    resource_from(resource.name.as_str(), decoded)
}

/// The sending half of `tokio::sync::oneshot`, carried as it is.
#[verifier::external_type_specification]
#[verifier::external_body]
#[verifier::reject_recursive_types(T)]
pub struct ExOneshotSender<T>(tokio::sync::oneshot::Sender<T>);

/// Wakes the one who waits at the other end; the result says whether anyone
/// still did.
///
/// Trusted: `tokio::sync::oneshot::Sender::send` hands the value over and
/// returns an error where the receiver is gone. Nothing is claimed of which
/// of the two happens.
#[verifier::external_body]
fn notify(tx: tokio::sync::oneshot::Sender<()>) -> (delivered: bool) {
    tx.send(()).is_ok()
}

/// The cache after a response of type `type_url` that carries `resources`
/// and removes `removed`: removals first, then every carried name.
pub open spec fn known_after(
    known: Set<(Seq<char>, Seq<char>)>,
    type_url: Seq<char>,
    resources: Seq<Seq<char>>,
    removed: Seq<Seq<char>>,
) -> Set<(Seq<char>, Seq<char>)> {
    Set::new(
        |k: (Seq<char>, Seq<char>)|
            (k.0 == type_url && resources.contains(k.1)) || (known.contains(k) && !(k.0 == type_url
                && removed.contains(k.1))),
    )
}

/// The keys still waited for after a response of type `type_url` that
/// carries `resources` and removes `removed`: every key that it names is
/// gone.
pub open spec fn pending_after(
    pending: Set<(Seq<char>, Seq<char>)>,
    type_url: Seq<char>,
    resources: Seq<Seq<char>>,
    removed: Seq<Seq<char>>,
) -> Set<(Seq<char>, Seq<char>)> {
    Set::new(
        |k: (Seq<char>, Seq<char>)|
            pending.contains(k) && !(k.0 == type_url && (resources.contains(k.1)
                || removed.contains(k.1))),
    )
}

/// What the client knows: the resources that the control plane has told of
/// and not removed since, and who waits for which resource.
pub struct State {
    known_resources: KeySet<ResourceKey>,
    pending: AssocList<ResourceKey, tokio::sync::oneshot::Sender<()>>,
}

impl State {
    /// The known resources, each as type and name.
    pub closed spec fn known(&self) -> Set<(Seq<char>, Seq<char>)> {
        self.known_resources@
    }

    /// The known names of one type.
    pub open spec fn known_names(&self, type_url: Seq<char>) -> Set<Seq<char>> {
        Set::new(|n: Seq<char>| self.known().contains((type_url, n)))
    }

    /// Who waits for which resource: the sender that wakes them, under the
    /// resource's type and name.
    pub closed spec fn pending(&self) -> Map<(Seq<char>, Seq<char>), tokio::sync::oneshot::Sender<()>> {
        self.pending@
    }

    /// The resources that someone waits for, each as type and name.
    pub open spec fn pending_keys(&self) -> Set<(Seq<char>, Seq<char>)> {
        self.pending().dom()
    }

    /// Neither collection holds a key twice.
    pub closed spec fn wf(&self) -> bool {
        self.known_resources.wf() && self.pending.wf()
    }

    /// A state that knows nothing and in which nobody waits.
    pub fn new() -> (r: State)
        ensures
            r.wf(),
            r.known() == Set::<(Seq<char>, Seq<char>)>::empty(),
            r.pending() == Map::<(Seq<char>, Seq<char>), tokio::sync::oneshot::Sender<()>>::empty(),
            r.pending_keys() == Set::<(Seq<char>, Seq<char>)>::empty(),
    {
        let r = State { known_resources: KeySet::new(), pending: AssocList::new() };
        proof {
            assert(r.pending_keys() =~= Set::<(Seq<char>, Seq<char>)>::empty());
        }
        r
    }

    /// Whether the resource `name` of type `type_url` is known.
    pub fn is_known(&self, type_url: &str, name: &str) -> (r: bool)
        ensures
            r == self.known().contains((type_url@, name@)),
    {
        let key = ResourceKey { name: new(name), type_url: new(type_url) };
        self.known_resources.contains(&key)
    }

    /// Whether someone waits for the resource `name` of type `type_url`.
    pub fn is_pending(&self, type_url: &str, name: &str) -> (r: bool)
        ensures
            r == self.pending_keys().contains((type_url@, name@)),
    {
        let key = ResourceKey { name: new(name), type_url: new(type_url) };
        self.pending.contains_key(&key)
    }

    /// The known names of one type, each once, each with the empty version.
    pub fn versions_of(&self, type_url: &str) -> (r: AssocList<String, String>)
        requires
            self.wf(),
        ensures
            r.wf(),
            r@.dom() == self.known_names(type_url@),
            forall|n: Seq<char>| r@.dom().contains(n) ==> (#[trigger] r@[n])@ == Seq::<char>::empty(),
    {
        let mut out: AssocList<String, String> = AssocList::new();
        let wanted = new(type_url);
        let mut i: usize = 0;
        let ghost ids = self.known_resources.ids();
        while i < self.known_resources.len()
            invariant
                i <= ids.len(),
                ids == self.known_resources.ids(),
                strng_chars(wanted) == type_url@,
                out.wf(),
                forall|n: Seq<char>|
                    out@.dom().contains(n) <==> exists|j: int|
                        0 <= j < i && #[trigger] ids[j] == (type_url@, n),
                forall|n: Seq<char>| out@.dom().contains(n) ==> (#[trigger] out@[n])@ == Seq::<char>::empty(),
            decreases ids.len() - i,
        {
            let key = self.known_resources.key_at(i);
            if same_text(&key.type_url, &wanted) {
                let ghost before = out@;
                let name = crate::strng::to_string(&key.name);
                let ghost n0 = name@;
                out.insert(name, String::new());
                proof {
                    assert(ids[i as int] == (type_url@, n0));
                    assert forall|n: Seq<char>| out@.dom().contains(n) implies exists|j: int|
                        0 <= j < i + 1 && #[trigger] ids[j] == (type_url@, n) by {
                        if n != n0 {
                            assert(before.dom().contains(n));
                            let j = choose|j: int| 0 <= j < i && #[trigger] ids[j] == (type_url@, n);
                            assert(ids[j] == (type_url@, n));
                        }
                    }
                }
            } else {
                proof {
                    assert forall|n: Seq<char>|
                        (exists|j: int| 0 <= j < i + 1 && #[trigger] ids[j] == (type_url@, n))
                        implies out@.dom().contains(n) by {
                        let j = choose|j: int| 0 <= j < i + 1 && #[trigger] ids[j] == (type_url@, n);
                        assert(j < i);
                    }
                }
            }
            i += 1;
        }
        proof {
            assert forall|n: Seq<char>| out@.dom().contains(n) <==> self.known_names(type_url@).contains(
                n,
            ) by {
                if self.known().contains((type_url@, n)) {
                    let j = ids.index_of((type_url@, n));
                    assert(ids[j] == (type_url@, n));
                }
                if out@.dom().contains(n) {
                    let j = choose|j: int| 0 <= j < i && #[trigger] ids[j] == (type_url@, n);
                    assert(ids.contains((type_url@, n)));
                }
            }
            assert(out@.dom() =~= self.known_names(type_url@));
        }
        out
    }

    /// Wakes whoever waits for `key`, and forgets that they waited.
    fn notify_on_demand(&mut self, key: &ResourceKey)
        requires
            old(self).wf(),
        ensures
            final(self).wf(),
            final(self).known() == old(self).known(),
            final(self).pending() == old(self).pending().remove(key.id()),
            final(self).pending_keys() == old(self).pending_keys().remove(key.id()),
            final(self).known_resources == old(self).known_resources,
    {
        if let Some(send) = self.pending.remove(key) {
            let _ = notify(send);
        }
    }

    /// Notes the resource `name` of type `type_url` as known.
    fn add_resource(&mut self, type_url: Strng, name: Strng)
        requires
            old(self).wf(),
        ensures
            final(self).wf(),
            final(self).known() == old(self).known().insert((strng_chars(type_url), strng_chars(name))),
            final(self).pending() == old(self).pending(),
            final(self).pending_keys() == old(self).pending_keys(),
            final(self).pending == old(self).pending,
    {
        self.known_resources.insert(ResourceKey { name, type_url });
    }

    /// Notes that someone waits for `key`; who waited for it before is
    /// dropped unnotified.
    fn await_resource(&mut self, key: ResourceKey, tx: tokio::sync::oneshot::Sender<()>)
        requires
            old(self).wf(),
        ensures
            final(self).wf(),
            final(self).known() == old(self).known(),
            final(self).pending() == old(self).pending().insert(key.id(), tx),
            final(self).pending_keys() == old(self).pending_keys().insert(key.id()),
    {
        let ghost before = self.pending@;
        self.pending.insert(key, tx);
        proof {
            assert(self.pending@.dom() =~= before.dom().insert(key.id()));
        }
    }

    /// Takes a demand for `key`: notes who waits, and notes the resource as
    /// known.
    pub(crate) fn demand(&mut self, key: ResourceKey, tx: tokio::sync::oneshot::Sender<()>)
        requires
            old(self).wf(),
        ensures
            final(self).wf(),
            final(self).known() == old(self).known().insert(key.id()),
            final(self).pending() == old(self).pending().insert(key.id(), tx),
            final(self).pending_keys() == old(self).pending_keys().insert(key.id()),
    {
        let ResourceKey { type_url, name } = key.duplicate();
        self.await_resource(key, tx);
        self.add_resource(type_url, name);
    }

    /// Brings cache and waiters up to date with a response of type
    /// `type_url`: the removed names leave the cache, the carried names
    /// enter it, and whoever waited for any of them is woken.
    pub(crate) fn apply(&mut self, type_url: &Strng, resources: &Vec<ProtoResource>, removed: &Vec<String>)
        requires
            old(self).wf(),
        ensures
            final(self).wf(),
            final(self).known() == known_after(
                old(self).known(),
                strng_chars(*type_url),
                resource_names(resources@),
                texts(removed@),
            ),
            final(self).pending_keys() == pending_after(
                old(self).pending_keys(),
                strng_chars(*type_url),
                resource_names(resources@),
                texts(removed@),
            ),
            final(self).pending() == old(self).pending().restrict(final(self).pending_keys()),
    {
        let ghost waiters0 = self.pending();
        let ghost t = strng_chars(*type_url);
        let ghost known0 = self.known();
        let ghost pending0 = self.pending_keys();
        let ghost gone = texts(removed@);
        let ghost names = resource_names(resources@);
        let mut i: usize = 0;
        while i < removed.len()
            invariant
                i <= removed.len(),
                self.wf(),
                t == strng_chars(*type_url),
                gone == texts(removed@),
                self.known() == Set::new(
                    |k: (Seq<char>, Seq<char>)|
                        known0.contains(k) && !(k.0 == t && gone.take(i as int).contains(k.1)),
                ),
                self.pending_keys() == Set::new(
                    |k: (Seq<char>, Seq<char>)|
                        pending0.contains(k) && !(k.0 == t && gone.take(i as int).contains(k.1)),
                ),
                self.pending() == waiters0.restrict(self.pending_keys()),
            decreases removed.len() - i,
        {
            let k = ResourceKey { name: new(removed[i].as_str()), type_url: share(type_url) };
            let ghost known1 = self.known();
            let ghost pending1 = self.pending_keys();
            self.known_resources.remove(&k);
            self.notify_on_demand(&k);
            proof {
                let a = gone.take(i as int);
                let b = gone.take(i + 1);
                assert(b =~= a.push(gone[i as int]));
                assert forall|n: Seq<char>| b.contains(n) <==> (a.contains(n) || n == gone[i as int]) by {
                    if a.contains(n) {
                        let j = a.index_of(n);
                        assert(b[j] == n);
                    }
                    if n == gone[i as int] {
                        assert(b[i as int] == n);
                    }
                }
                assert(k.id() == (t, gone[i as int]));
                assert(self.known() =~= Set::new(
                    |k: (Seq<char>, Seq<char>)| known0.contains(k) && !(k.0 == t && b.contains(k.1)),
                ));
                assert(self.pending_keys() =~= Set::new(
                    |k: (Seq<char>, Seq<char>)| pending0.contains(k) && !(k.0 == t && b.contains(k.1)),
                ));
            }
            i += 1;
        }
        proof {
            assert(gone.take(i as int) =~= gone);
        }
        let ghost known1 = self.known();
        let ghost pending1 = self.pending_keys();
        let mut i: usize = 0;
        while i < resources.len()
            invariant
                i <= resources.len(),
                self.wf(),
                t == strng_chars(*type_url),
                names == resource_names(resources@),
                self.known() == Set::new(
                    |k: (Seq<char>, Seq<char>)|
                        (k.0 == t && names.take(i as int).contains(k.1)) || known1.contains(k),
                ),
                self.pending_keys() == Set::new(
                    |k: (Seq<char>, Seq<char>)|
                        pending1.contains(k) && !(k.0 == t && names.take(i as int).contains(k.1)),
                ),
                self.pending() == waiters0.restrict(self.pending_keys()),
            decreases resources.len() - i,
        {
            let key = ResourceKey { name: new(resources[i].name.as_str()), type_url: share(type_url) };
            self.notify_on_demand(&key);
            self.add_resource(key.type_url, key.name);
            proof {
                let a = names.take(i as int);
                let b = names.take(i + 1);
                assert(b =~= a.push(names[i as int]));
                assert forall|n: Seq<char>| b.contains(n) <==> (a.contains(n) || n == names[i as int]) by {
                    if a.contains(n) {
                        let j = a.index_of(n);
                        assert(b[j] == n);
                    }
                    if n == names[i as int] {
                        assert(b[i as int] == n);
                    }
                }
                assert(self.known() =~= Set::new(
                    |k: (Seq<char>, Seq<char>)| (k.0 == t && b.contains(k.1)) || known1.contains(k),
                ));
                assert(self.pending_keys() =~= Set::new(
                    |k: (Seq<char>, Seq<char>)| pending1.contains(k) && !(k.0 == t && b.contains(k.1)),
                ));
            }
            i += 1;
        }
        proof {
            assert(names.take(i as int) =~= names);
            assert(self.known() =~= known_after(known0, t, names, gone));
            assert(self.pending_keys() =~= pending_after(pending0, t, names, gone));
        }
    }
}

/// What is said of a resource that came without payload.
pub open spec fn missing_text() -> Seq<char> {
    "XDS payload without resource"@
}

/// Every resource of `resources` that has no payload is among `rejected`,
/// under its name and with the words for a missing payload.
pub open spec fn rejects_missing(resources: Seq<ProtoResource>, rejected: Seq<(Seq<char>, Seq<char>)>) -> bool {
    forall|i: int|
        0 <= i < resources.len() && (#[trigger] resources[i]).resource.is_none() ==> rejected.contains(
            (resources[i].name@, missing_text()),
        )
}

/// The values among `s`, in order.
pub open spec fn oks<A, E>(s: Seq<Result<A, E>>) -> Seq<A>
    decreases s.len(),
{
    if s.len() == 0 {
        Seq::empty()
    } else {
        let rest = oks(s.drop_last());
        match s.last() {
            Ok(a) => rest.push(a),
            Err(_) => rest,
        }
    }
}

/// The errors among `s`, in order.
pub open spec fn errs<A, E>(s: Seq<Result<A, E>>) -> Seq<E>
    decreases s.len(),
{
    if s.len() == 0 {
        Seq::empty()
    } else {
        let rest = errs(s.drop_last());
        match s.last() {
            Ok(_) => rest,
            Err(e) => rest.push(e),
        }
    }
}

/// The rejection of each resource whose outcome is an error, in order: the
/// resource's name, and the error as text.
pub open spec fn rejected_of<T>(
    resources: Seq<ProtoResource>,
    outcomes: Seq<Result<XdsResource<T>, AdsError>>,
) -> Seq<(Seq<char>, Seq<char>)>
    decreases outcomes.len(),
{
    if outcomes.len() == 0 || resources.len() != outcomes.len() {
        Seq::empty()
    } else {
        let rest = rejected_of(resources.drop_last(), outcomes.drop_last());
        match outcomes.last() {
            Ok(_) => rest,
            Err(e) => rest.push((resources.last().name@, e.text())),
        }
    }
}

/// `updates` holds an update with each of `decoded`, in order, and then a
/// removal of each of `removed`, in order.
pub open spec fn is_updates_of<T>(
    updates: Seq<XdsUpdate<T>>,
    decoded: Seq<XdsResource<T>>,
    removed: Seq<String>,
) -> bool {
    &&& updates.len() == decoded.len() + removed.len()
    &&& forall|i: int| 0 <= i < decoded.len() ==> #[trigger] updates[i] == XdsUpdate::Update(decoded[i])
    &&& forall|i: int|
        0 <= i < removed.len() ==> ((#[trigger] updates[decoded.len() + i]) matches XdsUpdate::Remove(n)
            && strng_chars(n) == removed[i]@)
}

/// `failures` and `updates` are what comes of the resources and removals of
/// a response whose resources decoded as `outcomes` say: each outcome is one
/// that decoding its resource can give; the failures are the rejections of
/// the resources that did not decode; the updates carry the values of those
/// that did, followed by the removals.
pub open spec fn is_decoding<T: ProtoMessage>(
    resources: Seq<ProtoResource>,
    removed: Seq<String>,
    outcomes: Seq<Result<XdsResource<T>, AdsError>>,
    failures: Seq<RejectedConfig>,
    updates: Seq<XdsUpdate<T>>,
) -> bool {
    &&& outcomes.len() == resources.len()
    &&& forall|i: int| 0 <= i < resources.len() ==> is_decode_of(resources[i], #[trigger] outcomes[i])
    &&& rejections(failures) == rejected_of(resources, outcomes)
    &&& is_updates_of(updates, oks(outcomes), removed)
}

/// A resource whose outcome is an error is among the rejections, under its
/// name and with the error as text.
pub proof fn lemma_rejected_of<T>(
    resources: Seq<ProtoResource>,
    outcomes: Seq<Result<XdsResource<T>, AdsError>>,
    i: int,
)
    requires
        resources.len() == outcomes.len(),
        0 <= i < outcomes.len(),
        outcomes[i] is Err,
    ensures
        rejected_of(resources, outcomes).contains((resources[i].name@, outcomes[i]->Err_0.text())),
    decreases outcomes.len(),
{
    let all = rejected_of(resources, outcomes);
    let rest = rejected_of(resources.drop_last(), outcomes.drop_last());
    if i == outcomes.len() - 1 {
        assert(all[all.len() - 1] == (resources[i].name@, outcomes[i]->Err_0.text()));
    } else {
        lemma_rejected_of(resources.drop_last(), outcomes.drop_last(), i);
        let want = (resources[i].name@, outcomes[i]->Err_0.text());
        let k = rest.index_of(want);
        assert(rest[k] == want);
        assert(all[k] == want);
    }
}

/// The rejection of the resource `name` for the error `err`.
pub fn rejected(name: &str, err: &AdsError) -> (r: RejectedConfig)
    ensures
        r@ == (name@, err.text()),
{
    RejectedConfig::new(new(name), err.to_string())
}

/// Sorts what came of decoding the resources of a response: the rejections,
/// in order, and an update for each decoded resource, in order, followed by a
/// removal for each removed name, in order.
pub fn split_decoded<T>(decoded: Vec<Result<XdsResource<T>, RejectedConfig>>, removed: &Vec<String>) -> (r: (
    Vec<RejectedConfig>,
    Vec<XdsUpdate<T>>,
))
    ensures
        r.0@ == errs(decoded@),
        is_updates_of(r.1@, oks(decoded@), removed@),
{
    let mut failures: Vec<RejectedConfig> = Vec::new();
    let mut updates: Vec<XdsUpdate<T>> = Vec::new();
    let ghost all = decoded@;
    proof {
        assert(all.take(0) =~= Seq::empty());
    }
    for d in it: decoded
        invariant
            it.seq() == all,
            failures@ == errs(all.take(it.index() as int)),
            updates@.len() == oks(all.take(it.index() as int)).len(),
            forall|j: int|
                0 <= j < updates@.len() ==> #[trigger] updates@[j] == XdsUpdate::Update(
                    oks(all.take(it.index() as int))[j],
                ),
    {
        proof {
            let i = it.index() as int;
            assert(all.take(i + 1).drop_last() =~= all.take(i));
            assert(all.take(i + 1).last() == all[i]);
        }
        match d {
            Ok(r) => {
                updates.push(XdsUpdate::Update(r));
            },
            Err(e) => {
                failures.push(e);
            },
        }
    }
    proof {
        assert(all.take(all.len() as int) =~= all);
    }
    let ghost values = oks(all);
    let mut i: usize = 0;
    while i < removed.len()
        invariant
            i <= removed.len(),
            updates@.len() == values.len() + i,
            forall|j: int| 0 <= j < values.len() ==> #[trigger] updates@[j] == XdsUpdate::Update(values[j]),
            forall|j: int|
                0 <= j < i ==> ((#[trigger] updates@[values.len() + j]) matches XdsUpdate::Remove(n)
                    && strng_chars(n) == removed@[j]@),
        decreases removed.len() - i,
    {
        updates.push(XdsUpdate::Remove(new(removed[i].as_str())));
        i += 1;
    }
    (failures, updates)
}

/// Decodes the resources of a response and lists its removals.
///
/// Every resource is decoded, in order. The first result holds the
/// rejection of each resource that did not decode, under its name and with
/// the error as its reason; the second holds an update with the value of each
/// resource that did, followed by a removal for each removed name.
pub fn decode_updates<T: ProtoMessage>(resources: &Vec<ProtoResource>, removed: &Vec<String>) -> (r: (
    Vec<RejectedConfig>,
    Vec<XdsUpdate<T>>,
))
    ensures
        exists|outcomes: Seq<Result<XdsResource<T>, AdsError>>| #[trigger]
            is_decoding(resources@, removed@, outcomes, r.0@, r.1@),
        rejects_missing(resources@, rejections(r.0@)),
{
    let mut decoded: Vec<Result<XdsResource<T>, RejectedConfig>> = Vec::new();
    let ghost mut outcomes: Seq<Result<XdsResource<T>, AdsError>> = Seq::empty();
    let mut i: usize = 0;
    proof {
        assert(resources@.take(0) =~= Seq::empty());
        assert(rejections(errs(decoded@)) =~= Seq::<(Seq<char>, Seq<char>)>::empty());
    }
    while i < resources.len()
        invariant
            i <= resources.len(),
            decoded@.len() == i,
            outcomes.len() == i,
            forall|j: int| 0 <= j < i ==> is_decode_of(resources@[j], #[trigger] outcomes[j]),
            oks(decoded@) == oks(outcomes),
            rejections(errs(decoded@)) == rejected_of(resources@.take(i as int), outcomes),
        decreases resources.len() - i,
    {
        let raw = &resources[i];
        let ghost before = decoded@;
        let ghost marks = outcomes;
        let ghost failed = rejections(errs(decoded@));
        let outcome = decode_proto::<T>(raw);
        proof {
            outcomes = outcomes.push(outcome);
            assert(outcomes.drop_last() =~= marks);
            assert(resources@.take(i + 1).drop_last() =~= resources@.take(i as int));
            assert(resources@.take(i + 1).last() == resources@[i as int]);
        }
        match outcome {
            Ok(r) => {
                decoded.push(Ok(r));
                proof {
                    assert(decoded@.drop_last() =~= before);
                    assert(rejections(errs(decoded@)) =~= failed);
                }
            },
            Err(err) => {
                let rejection = rejected(raw.name.as_str(), &err);
                decoded.push(Err(rejection));
                proof {
                    assert(decoded@.drop_last() =~= before);
                    assert(rejections(errs(decoded@)) =~= failed.push((raw.name@, err.text())));
                }
            },
        }
        i += 1;
    }
    proof {
        assert(resources@.take(i as int) =~= resources@);
    }
    let r = split_decoded(decoded, removed);
    proof {
        assert(is_decoding(resources@, removed@, outcomes, r.0@, r.1@));
        assert forall|j: int| 0 <= j < resources@.len() && (#[trigger] resources@[j]).resource.is_none() implies rejections(
            r.0@,
        ).contains((resources@[j].name@, missing_text())) by {
            assert(is_decode_of(resources@[j], outcomes[j]));
            lemma_rejected_of(resources@, outcomes, j);
        }
    }
    r
}

/// `r` puts together what a handler reported and what did not decode:
/// success only where both are clean, else the handler's rejections followed
/// by the decoding failures.
pub open spec fn is_merge_of(
    r: Result<(), Vec<RejectedConfig>>,
    result: Result<(), Vec<RejectedConfig>>,
    decode_failures: Seq<RejectedConfig>,
) -> bool {
    match result {
        Ok(_) => if decode_failures.len() == 0 {
            r is Ok
        } else {
            r matches Err(v) && rejections(v@) == rejections(decode_failures)
        },
        Err(rejects) => r matches Err(v) && rejections(v@) == rejections(rejects@) + rejections(
            decode_failures,
        ),
    }
}

/// Puts together what a handler reported and what did not decode: success
/// only where both are clean, else the handler's rejections followed by the
/// decoding failures.
pub fn merge_results(result: Result<(), Vec<RejectedConfig>>, decode_failures: Vec<RejectedConfig>) -> (r:
    Result<(), Vec<RejectedConfig>>)
    ensures
        is_merge_of(r, result, decode_failures@),
{
    let mut decode_failures = decode_failures;
    match result {
        Ok(_) => {
            if decode_failures.len() == 0 {
                Ok(())
            } else {
                Err(decode_failures)
            }
        },
        Err(rejects) => {
            let mut rejects = rejects;
            let ghost a = rejects@;
            let ghost b = decode_failures@;
            rejects.append(&mut decode_failures);
            proof {
                assert(rejections(rejects@) =~= rejections(a) + rejections(b));
            }
            Err(rejects)
        },
    }
}

/// A handler for responses of one type, whatever their payload.
pub trait RawHandler: Send + Sync + 'static {
    /// Takes one response: hands its changes on, then brings the client's
    /// cache and waiters up to date. A resource without payload is always
    /// reported as rejected.
    fn handle(&self, state: &mut State, res: DeltaDiscoveryResponse) -> (r: Result<
        (),
        Vec<RejectedConfig>,
    >)
        requires
            old(state).wf(),
        ensures
            final(state).wf(),
            final(state).known() == known_after(
                old(state).known(),
                res.type_url@,
                resource_names(res.resources@),
                texts(res.removed_resources@),
            ),
            final(state).pending_keys() == pending_after(
                old(state).pending_keys(),
                res.type_url@,
                resource_names(res.resources@),
                texts(res.removed_resources@),
            ),
            final(state).pending() == old(state).pending().restrict(final(state).pending_keys()),
            match r {
                Ok(_) => rejects_missing(res.resources@, Seq::empty()),
                Err(v) => rejects_missing(res.resources@, rejections(v@)),
            },
    ;
}

/// Serves responses whose payload is a `T` with a handler for `T`.
#[verifier::reject_recursive_types(T)]
pub struct HandlerWrapper<T, H> {
    /// The handler that the changes of a response are handed to.
    pub h: H,
    /// The payload that the resources are decoded as.
    pub payload: PhantomData<T>,
}

impl<T, H: Handler<T>> HandlerWrapper<T, H> {
    /// Wraps a handler for `T`.
    pub fn new(h: H) -> (r: Self)
        ensures
            r.h == h,
    {
        HandlerWrapper { h, payload: PhantomData }
    }
}

/// A handler for responses of some type, whichever it is.
pub struct AnyHandler {
    pub handler: Box<dyn RawHandler>,
}

/// A handler that can be kept among handlers of other payload types.
pub trait Erase: Sized {
    /// The handler, with its payload type out of sight.
    fn erase(self) -> AnyHandler;
}

impl<T: ProtoMessage + Send + Sync + 'static, H: Handler<T>> Erase for HandlerWrapper<T, H> {
    fn erase(self) -> AnyHandler {
        AnyHandler { handler: Box::new(self) }
    }
}

impl<T: ProtoMessage + Send + Sync + 'static, H: Handler<T>> RawHandler for HandlerWrapper<T, H> {
    /// Decodes the resources, hands the decoded ones and the removals to the
    /// handler, and only then updates cache and waiters, so that whoever is
    /// woken finds the handler's work done. The result puts together what the
    /// handler reported and what did not decode.
    fn handle(&self, state: &mut State, res: DeltaDiscoveryResponse) -> (r: Result<
        (),
        Vec<RejectedConfig>,
    >)
        ensures
            exists|
                outcomes: Seq<Result<XdsResource<T>, AdsError>>,
                failures: Seq<RejectedConfig>,
                updates: Vec<XdsUpdate<T>>,
                result: Result<(), Vec<RejectedConfig>>,
            |
                #![trigger
                    is_decoding(res.resources@, res.removed_resources@, outcomes, failures, updates@),
                    is_merge_of(r, result, failures),
                ]
                {
                    &&& is_decoding(
                        res.resources@,
                        res.removed_resources@,
                        outcomes,
                        failures,
                        updates@,
                    )
                    &&& call_ensures(H::handle, (&self.h, updates), result)
                    &&& is_merge_of(r, result, failures)
                },
    {
        let type_url = new(res.type_url.as_str());
        let (decode_failures, updates) = decode_updates::<T>(&res.resources, &res.removed_resources);
        let ghost failures = decode_failures@;
        let ghost handed = updates;
        let ghost outcomes = choose|outcomes: Seq<Result<XdsResource<T>, AdsError>>| #[trigger]
            is_decoding(res.resources@, res.removed_resources@, outcomes, failures, handed@);
        let result = self.h.handle(updates);
        state.apply(&type_url, &res.resources, &res.removed_resources);
        let ghost failed = rejections(failures);
        let merged = merge_results(result, decode_failures);
        proof {
            assert(is_decoding(res.resources@, res.removed_resources@, outcomes, failures, handed@));
            assert(call_ensures(H::handle, (&self.h, handed), result));
            assert(is_merge_of(merged, result, failures));
            match &merged {
                Ok(_) => {
                    assert(failed.len() == 0);
                    assert forall|i: int|
                        0 <= i < res.resources@.len() && (
                        #[trigger] res.resources@[i]).resource.is_none() implies false by {
                        assert(failed.contains((res.resources@[i].name@, missing_text())));
                    }
                },
                Err(v) => {
                    let all = rejections(v@);
                    assert forall|i: int|
                        0 <= i < res.resources@.len() && (
                        #[trigger] res.resources@[i]).resource.is_none() implies all.contains(
                        (res.resources@[i].name@, missing_text()),
                    ) by {
                        let want = (res.resources@[i].name@, missing_text());
                        let k = failed.index_of(want);
                        assert(failed[k] == want);
                        assert(all[all.len() - failed.len() + k] == want);
                    }
                },
            }
        }
        merged
    }
}

/// Whether a response was accepted.
#[derive(Clone, Copy, Debug, PartialEq, Eq, Structural)]
pub enum XdsSignal {
    Ack,
    Nack,
}

impl XdsSignal {
    /// The signal as the protocol spells it.
    pub fn to_string(&self) -> (r: String)
        ensures
            r@ == match self {
                XdsSignal::Ack => "ACK"@,
                XdsSignal::Nack => "NACK"@,
            },
    {
        match self {
            XdsSignal::Ack => "ACK".to_owned(),
            XdsSignal::Nack => "NACK".to_owned(),
        }
    }
}

/// The parts, with a semicolon and a space between each two.
pub open spec fn join_reasons(parts: Seq<Seq<char>>) -> Seq<char>
    decreases parts.len(),
{
    if parts.len() == 0 {
        Seq::empty()
    } else if parts.len() == 1 {
        parts[0]
    } else {
        join_reasons(parts.drop_last()) + seq![';', ' '] + parts.last()
    }
}

/// Each rejection as text: name, colon, space, reason.
pub open spec fn rejection_texts(rejected: Seq<(Seq<char>, Seq<char>)>) -> Seq<Seq<char>> {
    Seq::new(rejected.len(), |i: int| rejected[i].0 + seq![':', ' '] + rejected[i].1)
}

/// The error text of a negative acknowledgement: every rejection as text,
/// joined by semicolon and space.
pub open spec fn nack_text(rejected: Seq<(Seq<char>, Seq<char>)>) -> Seq<char> {
    join_reasons(rejection_texts(rejected))
}

/// The rejections that an outcome carries.
pub open spec fn rejected_in(outcome: Result<(), Vec<RejectedConfig>>) -> Seq<(Seq<char>, Seq<char>)> {
    match outcome {
        Ok(_) => Seq::empty(),
        Err(v) => rejections(v@),
    }
}

/// `req` answers a response of type `type_url` with nonce `nonce` of which
/// `rejected` was turned down: it repeats type and nonce, and carries an
/// error, with the rejections as its message, exactly if there is a
/// rejection.
pub open spec fn is_answer(
    req: DeltaDiscoveryRequest,
    type_url: Seq<char>,
    nonce: Seq<char>,
    rejected: Seq<(Seq<char>, Seq<char>)>,
) -> bool {
    &&& req.type_url@ == type_url
    &&& req.response_nonce@ == nonce
    &&& req.node.is_none()
    &&& req.resource_names_subscribe@.len() == 0
    &&& req.resource_names_unsubscribe@.len() == 0
    &&& req.initial_resource_versions.wf()
    &&& req.initial_resource_versions@ == Map::<Seq<char>, String>::empty()
    &&& if rejected.len() == 0 {
        req.error_detail.is_none()
    } else {
        req.error_detail matches Some(status) && status.message@ == nack_text(rejected)
            && status.code == 0 && status.details@.len() == 0
    }
}

/// The answer to a response of type `type_url` with nonce `nonce` whose
/// handling came out as `outcome`: an acknowledgement where nothing was
/// rejected, a negative acknowledgement that lists the rejections otherwise.
pub fn acknowledge(type_url: String, nonce: String, outcome: Result<(), Vec<RejectedConfig>>) -> (r: (
    DeltaDiscoveryRequest,
    XdsSignal,
))
    ensures
        is_answer(r.0, type_url@, nonce@, rejected_in(outcome)),
        r.1 == if rejected_in(outcome).len() == 0 {
            XdsSignal::Ack
        } else {
            XdsSignal::Nack
        },
{
    let mut req = DeltaDiscoveryRequest::of_type(type_url);
    req.response_nonce = nonce;
    let rejects = match outcome {
        Ok(_) => {
            return (req, XdsSignal::Ack);
        },
        Err(rejects) => rejects,
    };
    if rejects.len() == 0 {
        return (req, XdsSignal::Ack);
    }
    let mut message = String::new();
    let ghost all = rejection_texts(rejections(rejects@));
    let mut i: usize = 0;
    proof {
        assert(all.take(0) =~= Seq::empty());
    }
    while i < rejects.len()
        invariant
            i <= rejects.len(),
            all == rejection_texts(rejections(rejects@)),
            message@ == join_reasons(all.take(i as int)),
        decreases rejects.len() - i,
    {
        let text = rejects[i].to_string();
        proof {
            reveal_strlit("; ");
            assert("; "@ =~= seq![';', ' ']);
            assert(all.take(i + 1).drop_last() =~= all.take(i as int));
            assert(all.take(i + 1).last() == all[i as int]);
            assert(text@ == all[i as int]);
            if i == 0 {
                assert(message@ + text@ =~= text@);
            }
        }
        if i > 0 {
            message.append("; ");
        }
        message.append(text.as_str());
        i += 1;
    }
    proof {
        assert(all.take(i as int) =~= all);
    }
    req.error_detail = Some(Status { code: 0, message, details: Vec::new() });
    (req, XdsSignal::Nack)
}

/// The cache after a run of responses, each given as its type, the names it
/// carries and the names it removes.
pub open spec fn known_after_all(
    known: Set<(Seq<char>, Seq<char>)>,
    responses: Seq<(Seq<char>, Seq<Seq<char>>, Seq<Seq<char>>)>,
) -> Set<(Seq<char>, Seq<char>)>
    decreases responses.len(),
{
    if responses.len() == 0 {
        known
    } else {
        let last = responses.last();
        known_after(known_after_all(known, responses.drop_last()), last.0, last.1, last.2)
    }
}

/// The response at `i` is of type `type_url` and carries `name`, and no
/// later response of that type removes `name`.
pub open spec fn carried_for_good(
    responses: Seq<(Seq<char>, Seq<Seq<char>>, Seq<Seq<char>>)>,
    type_url: Seq<char>,
    name: Seq<char>,
    i: int,
) -> bool {
    &&& 0 <= i < responses.len()
    &&& responses[i].0 == type_url
    &&& responses[i].1.contains(name)
    &&& forall|j: int|
        i < j < responses.len() ==> !((#[trigger] responses[j]).0 == type_url
            && responses[j].2.contains(name))
}

/// Starting from an empty cache, a name of a type is known after a run of
/// responses exactly if some response of that type carried it and no later
/// response of that type removed it.
pub proof fn lemma_cache_consistency(
    responses: Seq<(Seq<char>, Seq<Seq<char>>, Seq<Seq<char>>)>,
    type_url: Seq<char>,
    name: Seq<char>,
)
    ensures
        known_after_all(Set::empty(), responses).contains((type_url, name)) <==> exists|i: int|
            #[trigger] carried_for_good(responses, type_url, name, i),
    decreases responses.len(),
{
    if responses.len() > 0 {
        let before = responses.drop_last();
        let n = responses.len() - 1;
        let last = responses.last();
        lemma_cache_consistency(before, type_url, name);
        let known = known_after_all(Set::empty(), before);
        if known_after_all(Set::empty(), responses).contains((type_url, name)) {
            if last.0 == type_url && last.1.contains(name) {
                assert(carried_for_good(responses, type_url, name, n));
            } else {
                assert(known.contains((type_url, name)));
                let i = choose|i: int| #[trigger] carried_for_good(before, type_url, name, i);
                assert(responses[i] == before[i]);
                assert forall|j: int| i < j < responses.len() implies !((#[trigger] responses[j]).0
                    == type_url && responses[j].2.contains(name)) by {
                    if j < n {
                        assert(responses[j] == before[j]);
                    }
                }
                assert(carried_for_good(responses, type_url, name, i));
            }
        }
        if exists|i: int| #[trigger] carried_for_good(responses, type_url, name, i) {
            let i = choose|i: int| #[trigger] carried_for_good(responses, type_url, name, i);
            if i < n {
                assert(before[i] == responses[i]);
                assert forall|j: int| i < j < before.len() implies !((#[trigger] before[j]).0
                    == type_url && before[j].2.contains(name)) by {
                    assert(before[j] == responses[j]);
                }
                assert(carried_for_good(before, type_url, name, i));
                assert(known.contains((type_url, name)));
                assert(!(responses[n].0 == type_url && responses[n].2.contains(name)));
            }
        }
    }
}

} // verus!
