//! The registry of containers, and what the engine decides on it.

use vstd::prelude::*;
use dashmap::DashMap;
use std::collections::hash_map::RandomState;
use crate::command::Invocation;
use crate::container::{
    fresh_uuid, is_hyphenated_uuid, runtime_call, Container, ContainerView,
};
use crate::creation::{CreateFlow, FlowView, StageView, Task, TaskView};
use crate::error::{EngineError, ErrorView};
use crate::image::{image_name, image_tag, ImageRef};

verus! {

/// `dashmap::DashMap`, of which nothing but what its methods say is known.
#[verifier::external_type_specification]
#[verifier::external_body]
#[verifier::reject_recursive_types(K)]
#[verifier::reject_recursive_types(V)]
#[verifier::reject_recursive_types(S)]
pub struct ExDashMap<K, V, S>(DashMap<K, V, S>);

/// What a map of containers holds: each key with what its container stands
/// for.
pub uninterp spec fn entries(map: DashMap<String, Container, RandomState>) -> Map<
    Seq<char>,
    ContainerView,
>;

/// A registry without containers.
pub open spec fn empty_registry() -> Map<Seq<char>, ContainerView> {
    Map::empty()
}

/// `DashMap::new`: a map that holds nothing.
#[verifier::external_body]
fn map_new() -> (r: DashMap<String, Container, RandomState>)
    ensures
        entries(r) == empty_registry(),
{
    DashMap::new()
}

/// `DashMap::len`: the number of keys.
#[verifier::external_body]
fn map_len(map: &DashMap<String, Container, RandomState>) -> (r: usize)
    ensures
        r == entries(*map).dom().len(),
{
    map.len()
}

/// `DashMap::contains_key`: whether the map holds `key`.
#[verifier::external_body]
fn map_contains(map: &DashMap<String, Container, RandomState>, key: &str) -> (r: bool)
    ensures
        r == entries(*map).dom().contains(key@),
{
    map.contains_key(key)
}

/// `DashMap::get`, with a copy of the value taken from the guard: the
/// container under `key`, if the map holds the key.
#[verifier::external_body]
fn map_get(map: &DashMap<String, Container, RandomState>, key: &str) -> (r: Option<Container>)
    ensures
        r is Some == entries(*map).dom().contains(key@),
        r is Some ==> r->Some_0@ == entries(*map)[key@],
{
    map.get(key).map(|entry| entry.value().clone())
}

/// `DashMap::insert`: afterwards the map holds `value` under `key` and is
/// otherwise as before. What was under `key` before is handed back. The
/// method itself asks for a shared borrow only; the exclusive one here keeps
/// every other user of the map away for as long as the call lasts, and so the
/// map changes by this call alone. The call is taken not to unwind.
#[verifier::external_body]
fn map_insert(
    map: &mut DashMap<String, Container, RandomState>,
    key: String,
    value: Container,
) -> (r: Option<Container>)
    ensures
        entries(*final(map)) == entries(*old(map)).insert(key@, value@),
        r is Some == entries(*old(map)).dom().contains(key@),
        r is Some ==> r->Some_0@ == entries(*old(map))[key@],
    no_unwind
{
    map.insert(key, value)
}

/// `DashMap::remove`: afterwards the map no longer holds `key` and is
/// otherwise as before. What was under `key` is handed back. The borrow is
/// exclusive for the reason given at `map_insert`, and the call is taken not
/// to unwind.
#[verifier::external_body]
fn map_remove(map: &mut DashMap<String, Container, RandomState>, key: &str) -> (r: Option<
    Container,
>)
    ensures
        entries(*final(map)) == entries(*old(map)).remove(key@),
        r is Some == entries(*old(map)).dom().contains(key@),
        r is Some ==> r->Some_0@ == entries(*old(map))[key@],
    no_unwind
{
    map.remove(key).map(|pair| pair.1)
}

/// `DashMap::iter`, with a copy taken of each key and value: every entry of
/// the map once, in no order that could be told beforehand.
#[verifier::external_body]
fn map_pairs(map: &DashMap<String, Container, RandomState>) -> (r: Vec<(String, Container)>)
    ensures
        r@.len() == entries(*map).dom().len(),
        forall|i: int|
            0 <= i < r@.len() ==> entries(*map).dom().contains((#[trigger] r@[i]).0@) && entries(
                *map,
            )[r@[i].0@] == r@[i].1@,
        forall|i: int, j: int| 0 <= i < j < r@.len() ==> r@[i].0@ != r@[j].0@,
        forall|key: Seq<char>| #[trigger]
            entries(*map).dom().contains(key) ==> exists|i: int|
                0 <= i < r@.len() && (#[trigger] r@[i]).0@ == key,
{
    map.iter().map(|entry| (entry.key().clone(), entry.value().clone())).collect()
}

/// `DashMap::clear`: afterwards the map holds nothing. The borrow is
/// exclusive for the reason given at `map_insert`, and the call is taken not
/// to unwind.
#[verifier::external_body]
fn map_clear(map: &mut DashMap<String, Container, RandomState>)
    ensures
        entries(*final(map)) == empty_registry(),
    no_unwind
{
    map.clear()
}

/// The status with which the engine exits once an interrupt has made it
/// release its containers.
pub const INTERRUPT_EXIT_CODE: i32 = 130;

/// What the engine finds when it is asked to create a container.
#[derive(Debug, PartialEq, Eq)]
pub enum Creation {
    /// A container of that name is registered: nothing is to be done.
    Exists,
    /// No container of that name is registered: one is to be made, and
    /// this is the first task.
    Begin(CreateFlow, Task),
}

/// The registry with `container` added under its name, unless a container
/// of that name is there already: then nothing changes.
pub open spec fn registered(
    registry: Map<Seq<char>, ContainerView>,
    container: ContainerView,
) -> Map<Seq<char>, ContainerView> {
    if registry.dom().contains(container.id) {
        registry
    } else {
        registry.insert(container.id, container)
    }
}

/// The container that is registered as `name`, or the failure that says
/// that there is none.
pub open spec fn found(registry: Map<Seq<char>, ContainerView>, name: Seq<char>) -> Result<
    ContainerView,
    ErrorView,
> {
    if registry.dom().contains(name) {
        Ok(registry[name])
    } else {
        Err(ErrorView::NotFound { name })
    }
}

/// What a [`Creation`] stands for.
pub enum CreationView {
    Exists,
    Fetch { name: Seq<char>, tag: Seq<char> },
}

impl View for Creation {
    type V = CreationView;

    open spec fn view(&self) -> CreationView {
        match self {
            Creation::Exists => CreationView::Exists,
            Creation::Begin(flow, _) => CreationView::Fetch {
                name: flow@.image_name,
                tag: flow@.image_tag,
            },
        }
    }
}

/// The flow that makes the container `name` under `uuid`, at its
/// beginning.
pub open spec fn begun(name: Seq<char>, uuid: Seq<char>) -> FlowView {
    FlowView {
        name,
        uuid,
        image_name: image_name(name),
        image_tag: image_tag(name),
        stage: StageView::ImageDir,
    }
}

/// What a request to create `name` asks for. Where the name is registered,
/// nothing. Elsewhere the image that the name stands for is to be fetched;
/// an empty name stands for none.
pub open spec fn creation_of(registry: Map<Seq<char>, ContainerView>, name: Seq<char>) -> Result<
    CreationView,
    ErrorView,
> {
    if registry.dom().contains(name) {
        Ok(CreationView::Exists)
    } else if name.len() == 0 {
        Err(ErrorView::EmptySpec)
    } else {
        Ok(CreationView::Fetch { name: image_name(name), tag: image_tag(name) })
    }
}

/// The container engine: its containers by name.
pub struct Engine {
    containers: DashMap<String, Container, RandomState>,
}

impl View for Engine {
    type V = Map<Seq<char>, ContainerView>;

    closed spec fn view(&self) -> Map<Seq<char>, ContainerView> {
        entries(self.containers)
    }
}

impl Engine {
    #[verifier::type_invariant]
    spec fn keyed_by_name(&self) -> bool {
        &&& entries(self.containers).dom().finite()
        &&& forall|name: Seq<char>| #[trigger]
            entries(self.containers).dom().contains(name) ==> entries(self.containers)[name].id
                == name
    }

    /// An engine without containers.
    pub fn new() -> (r: Engine)
        ensures
            r@ == empty_registry(),
    {
        Engine { containers: map_new() }
    }

    /// The number of containers, of which there are finitely many.
    pub fn len(&self) -> (r: usize)
        ensures
            self@.dom().finite(),
            r == self@.dom().len(),
    {
        proof {
            use_type_invariant(self);
        }
        map_len(&self.containers)
    }

    /// Whether a container is registered as `container_name`.
    pub fn contains(&self, container_name: &str) -> (r: bool)
        ensures
            r == self@.dom().contains(container_name@),
    {
        map_contains(&self.containers, container_name)
    }

    /// A copy of the handle that is registered as `container_name`.
    pub fn get(&self, container_name: &str) -> (r: Result<Container, EngineError>)
        ensures
            match r {
                Ok(container) => found(self@, container_name@) == Ok::<ContainerView, ErrorView>(
                    container@,
                ) && container@.id == container_name@,
                Err(e) => found(self@, container_name@) == Err::<ContainerView, ErrorView>(e@),
            },
    {
        proof {
            use_type_invariant(self);
        }
        match map_get(&self.containers, container_name) {
            Some(container) => Ok(container),
            None => Err(EngineError::NotFound { name: String::from_str(container_name) }),
        }
    }

    /// Decides what a request to create `container_name` asks for. Where a
    /// container of that name is registered, nothing. Elsewhere one is to be
    /// made from the image that the name stands for, `name` or `name:tag`,
    /// under a fresh UUID; an empty name stands for no image.
    pub fn create(&self, container_name: &str) -> (r: Result<Creation, EngineError>)
        ensures
            match r {
                Ok(creation) => creation_of(self@, container_name@) == Ok::<
                    CreationView,
                    ErrorView,
                >(creation@),
                Err(e) => creation_of(self@, container_name@) == Err::<CreationView, ErrorView>(
                    e@,
                ),
            },
            r matches Ok(Creation::Begin(flow, task)) ==> is_hyphenated_uuid(flow@.uuid) && flow@
                == begun(container_name@, flow@.uuid) && task@ == TaskView::MakeImageDir,
    {
        if map_contains(&self.containers, container_name) {
            return Ok(Creation::Exists);
        }
        match ImageRef::parse(container_name) {
            Ok(image) => {
                let uuid = fresh_uuid();
                let (flow, task) = CreateFlow::begin(container_name, uuid.as_str(), image);
                Ok(Creation::Begin(flow, task))
            },
            Err(e) => Err(e),
        }
    }

    /// Registers `container` under its name. Where a container of that name
    /// is registered already, nothing changes, and `container` is handed back.
    pub fn register(&mut self, container: Container) -> (r: Option<Container>)
        ensures
            final(self)@ == registered(old(self)@, container@),
            match r {
                Some(back) => old(self)@.dom().contains(container@.id) && back == container,
                None => !old(self)@.dom().contains(container@.id),
            },
    {
        proof {
            use_type_invariant(&*self);
        }
        if map_contains(&self.containers, container.id()) {
            Some(container)
        } else {
            let key = String::from_str(container.id());
            map_insert(&mut self.containers, key, container);
            None
        }
    }

    /// The launch that asks the runtime for the state of `container_name`,
    /// and a copy of its handle, by which the reply is read.
    pub fn state(&self, container_name: &str) -> (r: Result<(Container, Invocation), EngineError>)
        ensures
            match r {
                Ok((container, call)) => found(self@, container_name@) == Ok::<
                    ContainerView,
                    ErrorView,
                >(container@) && call@ == runtime_call(seq!["state"@], container_name@),
                Err(e) => found(self@, container_name@) == Err::<ContainerView, ErrorView>(e@),
            },
    {
        match self.get(container_name) {
            Ok(container) => {
                let call = container.state();
                Ok((container, call))
            },
            Err(e) => Err(e),
        }
    }

    /// The launch that pauses `container_name`.
    pub fn pause(&self, container_name: &str) -> (r: Result<Invocation, EngineError>)
        ensures
            match r {
                Ok(call) => found(self@, container_name@) is Ok && call@ == runtime_call(
                    seq!["pause"@],
                    container_name@,
                ),
                Err(e) => found(self@, container_name@) == Err::<ContainerView, ErrorView>(e@),
            },
    {
        match self.get(container_name) {
            Ok(container) => Ok(container.pause()),
            Err(e) => Err(e),
        }
    }

    /// The launch that lets the paused `container_name` go on.
    pub fn resume(&self, container_name: &str) -> (r: Result<Invocation, EngineError>)
        ensures
            match r {
                Ok(call) => found(self@, container_name@) is Ok && call@ == runtime_call(
                    seq!["resume"@],
                    container_name@,
                ),
                Err(e) => found(self@, container_name@) == Err::<ContainerView, ErrorView>(e@),
            },
    {
        match self.get(container_name) {
            Ok(container) => Ok(container.resume()),
            Err(e) => Err(e),
        }
    }

    /// Takes `container_name` out of the registry and hands its handle to
    /// the caller, who deletes the container with it.
    pub fn delete(&mut self, container_name: &str) -> (r: Result<Container, EngineError>)
        ensures
            final(self)@ == old(self)@.remove(container_name@),
            match r {
                Ok(container) => found(old(self)@, container_name@) == Ok::<
                    ContainerView,
                    ErrorView,
                >(container@) && container@.id == container_name@,
                Err(e) => found(old(self)@, container_name@) == Err::<ContainerView, ErrorView>(
                    e@,
                ),
            },
    {
        proof {
            use_type_invariant(&*self);
        }
        match map_remove(&mut self.containers, container_name) {
            Some(container) => Ok(container),
            None => Err(EngineError::NotFound { name: String::from_str(container_name) }),
        }
    }

    /// Empties the registry and hands every handle to the caller, each once
    /// and in no particular order, to be released.
    pub fn clear(&mut self) -> (r: Vec<Container>)
        ensures
            final(self)@ == empty_registry(),
            r@.len() == old(self)@.dom().len(),
            forall|i: int|
                0 <= i < r@.len() ==> old(self)@.dom().contains((#[trigger] r@[i])@.id) && old(
                    self,
                )@[r@[i]@.id] == r@[i]@,
            forall|i: int, j: int| 0 <= i < j < r@.len() ==> r@[i]@.id != r@[j]@.id,
            forall|name: Seq<char>| #[trigger]
                old(self)@.dom().contains(name) ==> exists|i: int|
                    0 <= i < r@.len() && (#[trigger] r@[i])@.id == name,
    {
        proof {
            use_type_invariant(&*self);
        }
        let pairs = map_pairs(&self.containers);
        let mut handles: Vec<Container> = Vec::new();
        let mut i: usize = 0;
        while i < pairs.len()
            invariant
                i <= pairs.len(),
                handles@.len() == i,
                forall|k: int| 0 <= k < i ==> (#[trigger] handles@[k])@ == pairs@[k].1@,
            decreases pairs.len() - i,
        {
            handles.push(pairs[i].1.clone());
            i += 1;
        }
        map_clear(&mut self.containers);
        assert forall|name: Seq<char>| #[trigger] old(self)@.dom().contains(name) implies exists|
            i: int,
        |
            0 <= i < handles@.len() && (#[trigger] handles@[i])@.id == name by {
            let i = choose|i: int| 0 <= i < pairs@.len() && (#[trigger] pairs@[i]).0@ == name;
            assert(handles@[i]@ == pairs@[i].1@);
        }
        handles
    }
}

/// Creating a container twice is creating it once: the second request
/// finds the name registered, asks for nothing to be fetched or launched, and
/// a second registration changes nothing. On a registry that was empty this
/// leaves exactly one entry.
pub proof fn lemma_create_is_idempotent(
    registry: Map<Seq<char>, ContainerView>,
    first: ContainerView,
    second: ContainerView,
)
    requires
        first.id == second.id,
    ensures
        creation_of(registered(registry, first), second.id) == Ok::<CreationView, ErrorView>(
            CreationView::Exists,
        ),
        registered(registered(registry, first), second) == registered(registry, first),
        registry == empty_registry() ==> registered(registered(registry, first), second).dom()
            =~= set![first.id],
        registry == empty_registry() ==> registered(registered(registry, first), second).len()
            == 1,
{
    if registry == empty_registry() {
        let once = registered(registry, first);
        assert(once.dom() =~= set![first.id]);
        assert(once.dom().len() == 1);
    }
}

/// Once a container is deleted, every request that names it finds nothing:
/// a query for its state, a pause, a resume and a second deletion all fail
/// with the error that says so.
pub proof fn lemma_deleted_is_not_found(registry: Map<Seq<char>, ContainerView>, name: Seq<char>)
    ensures
        found(registry.remove(name), name) == Err::<ContainerView, ErrorView>(
            ErrorView::NotFound { name },
        ),
        !(creation_of(registry.remove(name), name) matches Ok(CreationView::Exists)),
{
}

} // verus!
