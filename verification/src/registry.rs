//! The registry of node types: every identifier once, in order of
//! registration.

use crate::error::{PluginError, PluginErrorView};
use crate::metadata::{MetadataView, NodeMetadata};
use crate::node::NodeFactory;
use crate::text::same_text;
use vstd::prelude::*;

verus! {

/// Whether a list of factories holds one of the given type identifier.
pub open spec fn holds(factories: Seq<NodeFactory>, type_id: Seq<char>) -> bool {
    exists|i: int| 0 <= i < factories.len() && (#[trigger] factories[i]).type_id() == type_id
}

/// Whether no two factories of a list share a type identifier.
pub open spec fn distinct_types(factories: Seq<NodeFactory>) -> bool {
    forall|i: int, j: int|
        0 <= i < j < factories.len() ==> (#[trigger] factories[i]).type_id() != (
        #[trigger] factories[j]).type_id()
}

/// The list after a factory was offered: longer by it where its identifier
/// was free, the same list otherwise.
pub open spec fn after_register(factories: Seq<NodeFactory>, factory: NodeFactory) -> Seq<
    NodeFactory,
> {
    if holds(factories, factory.type_id()) {
        factories
    } else {
        factories.push(factory)
    }
}

/// What the registry answers when a factory is offered.
pub open spec fn register_outcome(factories: Seq<NodeFactory>, factory: NodeFactory) -> Result<
    (),
    PluginErrorView,
> {
    if holds(factories, factory.type_id()) {
        Err(PluginErrorView::DuplicateType(factory.type_id()))
    } else {
        Ok(())
    }
}

/// The descriptions of a list of factories, in order.
pub open spec fn descriptions(factories: Seq<NodeFactory>) -> Seq<MetadataView> {
    Seq::new(factories.len(), |i: int| factories[i].described())
}

/// A second factory with the identifier of one just offered is refused, and
/// the list stays as the first offer left it. On an empty registry, its size
/// stays one.
pub proof fn lemma_duplicate_is_refused(
    factories: Seq<NodeFactory>,
    first: NodeFactory,
    second: NodeFactory,
)
    requires
        first.type_id() == second.type_id(),
    ensures
        register_outcome(after_register(factories, first), second) == Err::<(), PluginErrorView>(
            PluginErrorView::DuplicateType(second.type_id()),
        ),
        after_register(after_register(factories, first), second) == after_register(
            factories,
            first,
        ),
        factories.len() == 0 ==> after_register(after_register(factories, first), second).len()
            == 1,
{
    let once = after_register(factories, first);
    if !holds(factories, first.type_id()) {
        assert(once[factories.len() as int].type_id() == second.type_id());
    }
    assert(holds(once, second.type_id()));
}

/// Offering a factory keeps every identifier unique.
pub proof fn lemma_register_keeps_distinct(factories: Seq<NodeFactory>, factory: NodeFactory)
    requires
        distinct_types(factories),
    ensures
        distinct_types(after_register(factories, factory)),
{
    let next = after_register(factories, factory);
    if !holds(factories, factory.type_id()) {
        assert forall|i: int, j: int| 0 <= i < j < next.len() implies (#[trigger] next[i]).type_id()
            != (#[trigger] next[j]).type_id() by {
            if j < factories.len() {
                assert(factories[i].type_id() != factories[j].type_id());
            } else {
                assert(next[i] == factories[i]);
            }
        }
    }
}

/// The node types that a host can instantiate.
#[derive(Debug)]
pub struct NodeRegistry {
    factories: Vec<NodeFactory>,
}

impl View for NodeRegistry {
    type V = Seq<NodeFactory>;

    closed spec fn view(&self) -> Seq<NodeFactory> {
        self.factories@
    }
}

impl NodeRegistry {
    /// The validity of a registry: no type identifier occurs twice.
    #[verifier::type_invariant]
    pub open spec fn wf(&self) -> bool {
        distinct_types(self@)
    }

    /// The empty registry.
    pub fn new() -> (registry: NodeRegistry)
        ensures
            registry@ == Seq::<NodeFactory>::empty(),
    {
        NodeRegistry { factories: Vec::new() }
    }

    /// The number of node types.
    pub fn len(&self) -> (count: usize)
        ensures
            count == self@.len(),
    {
        self.factories.len()
    }

    /// The position of the factory with the given type identifier.
    fn position(&self, type_id: &str) -> (found: Option<usize>)
        ensures
            match found {
                Some(i) => i < self@.len() && self@[i as int].type_id() == type_id@,
                None => !holds(self@, type_id@),
            },
    {
        let mut i: usize = 0;
        while i < self.factories.len()
            invariant
                i <= self.factories.len(),
                forall|j: int| 0 <= j < i ==> (#[trigger] self@[j]).type_id() != type_id@,
            decreases self.factories.len() - i,
        {
            if same_text(self.factories[i].type_key(), type_id) {
                return Some(i);
            }
            i += 1;
        }
        None
    }

    /// Registers a node type under the identifier in its description. An
    /// identifier that is taken is refused, and the registry stays as it was.
    pub fn register_node_factory(&mut self, factory: NodeFactory) -> (outcome: Result<
        (),
        PluginError,
    >)
        ensures
            final(self)@ == after_register(old(self)@, factory),
            match outcome {
                Ok(_) => register_outcome(old(self)@, factory) is Ok,
                Err(error) => register_outcome(old(self)@, factory) == Err::<(), PluginErrorView>(
                    error@,
                ),
            },
    {
        proof {
            use_type_invariant(&*self);
            lemma_register_keeps_distinct(self@, factory);
        }
        match self.position(factory.type_key()) {
            Some(_) => Err(PluginError::DuplicateType(factory.type_key().to_owned())),
            None => {
                let mut taken = NodeRegistry::new();
                core::mem::swap(self, &mut taken);
                let mut factories = taken.factories;
                factories.push(factory);
                *self = NodeRegistry { factories };
                Ok(())
            },
        }
    }

    /// The factory of the given type identifier, if one is registered.
    pub fn lookup(&self, type_id: &str) -> (found: Option<&NodeFactory>)
        ensures
            match found {
                Some(factory) => factory.type_id() == type_id@ && self@.contains(*factory),
                None => !holds(self@, type_id@),
            },
    {
        match self.position(type_id) {
            Some(i) => Some(&self.factories[i]),
            None => None,
        }
    }

    /// The descriptions of all registered node types, in order of
    /// registration.
    pub fn list(&self) -> (listed: Vec<NodeMetadata>)
        ensures
            listed.deep_view() == descriptions(self@),
    {
        let mut listed: Vec<NodeMetadata> = Vec::new();
        let mut i: usize = 0;
        while i < self.factories.len()
            invariant
                i <= self.factories.len(),
                listed@.len() == i,
                forall|j: int| 0 <= j < i ==> (#[trigger] listed@[j])@ == self@[j].described(),
            decreases self.factories.len() - i,
        {
            listed.push(self.factories[i].metadata());
            i += 1;
        }
        assert(listed.deep_view() =~= descriptions(self@));
        listed
    }
}

} // verus!
