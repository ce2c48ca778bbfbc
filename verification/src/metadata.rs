//! Node descriptors and the read-only descriptor catalog.
//!
//! The catalog enumerates every node type the generator knows, in one
//! explicit static table; it is built once and never mutated afterwards, so
//! any number of concurrent compile calls may read it.

use vstd::prelude::*;

use crate::graph::TypeInfo;
use crate::nodes;

verus! {

/// The kind of a node type, driving how the generator emits it.
#[derive(Debug, Clone, Copy, PartialEq, Eq, Structural)]
pub enum NodeKind {
    /// Side-effect free; inlined as an expression at every use site.
    Pure,
    /// Emits one call statement, binding a result variable when it returns.
    Function,
    /// Placeholder emission only; structured lowering is out of scope.
    ControlFlow,
    /// A graph marker (entry or output); emits nothing itself.
    Event,
}

/// One declared parameter of a node type.
#[derive(Debug, Clone, PartialEq, Eq)]
pub struct ParamInfo {
    pub name: String,
    pub param_type: String,
}

/// Spec-level form of a parameter.
#[verifier::ext_equal]
pub struct ParamSpec {
    pub name: Seq<char>,
    pub param_type: Seq<char>,
}

impl View for ParamInfo {
    type V = ParamSpec;

    open spec fn view(&self) -> ParamSpec {
        ParamSpec { name: self.name@, param_type: self.param_type@ }
    }
}

impl ParamInfo {
    /// A parameter with the given name and type tag.
    pub fn new(name: &str, param_type: &str) -> (r: Self)
        ensures
            r@ == (ParamSpec { name: name@, param_type: param_type@ }),
    {
        ParamInfo { name: String::from_str(name), param_type: String::from_str(param_type) }
    }
}

/// The descriptor of one node type: immutable once constructed.
#[derive(Debug, Clone, PartialEq, Eq)]
pub struct NodeMetadata {
    pub name: String,
    pub kind: NodeKind,
    pub category: String,
    pub params: Vec<ParamInfo>,
    pub return_type: Option<TypeInfo>,
    pub exec_outputs: Vec<String>,
    pub source: String,
}

/// Spec-level form of a descriptor.
#[verifier::ext_equal]
pub struct MetaSpec {
    pub name: Seq<char>,
    pub kind: NodeKind,
    pub category: Seq<char>,
    pub params: Seq<ParamSpec>,
    pub return_type: Option<Seq<char>>,
    pub exec_outputs: Seq<Seq<char>>,
    pub source: Seq<char>,
}

impl View for NodeMetadata {
    type V = MetaSpec;

    open spec fn view(&self) -> MetaSpec {
        MetaSpec {
            name: self.name@,
            kind: self.kind,
            category: self.category@,
            params: self.params@.map_values(|p: ParamInfo| p@),
            return_type: match self.return_type {
                Some(t) => Some(t@),
                None => None,
            },
            exec_outputs: self.exec_outputs@.map_values(|s: String| s@),
            source: self.source@,
        }
    }
}

impl NodeMetadata {
    /// A descriptor with the given name, kind and category, and no
    /// parameters, return type, execution outputs or source yet.
    pub fn new(name: &str, kind: NodeKind, category: &str) -> (r: Self)
        ensures
            r@ == (MetaSpec {
                name: name@,
                kind,
                category: category@,
                params: Seq::empty(),
                return_type: None,
                exec_outputs: Seq::empty(),
                source: Seq::empty(),
            }),
    {
        let r = NodeMetadata {
            name: String::from_str(name),
            kind,
            category: String::from_str(category),
            params: Vec::new(),
            return_type: None,
            exec_outputs: Vec::new(),
            source: String::new(),
        };
        proof {
            assert(r@ =~= (MetaSpec {
                name: name@,
                kind,
                category: category@,
                params: Seq::empty(),
                return_type: None,
                exec_outputs: Seq::empty(),
                source: Seq::empty(),
            }));
        }
        r
    }

    /// The same descriptor with the given parameter list.
    pub fn with_params(self, params: Vec<ParamInfo>) -> (r: Self)
        ensures
            r@ == (MetaSpec { params: params@.map_values(|p: ParamInfo| p@), ..self@ }),
    {
        let r = NodeMetadata { params, ..self };
        proof {
            assert(r@ =~= (MetaSpec { params: r.params@.map_values(|p: ParamInfo| p@), ..self@ }));
        }
        r
    }

    /// The same descriptor with the given return type tag.
    pub fn with_return_type(self, param_type: &str) -> (r: Self)
        ensures
            r@ == (MetaSpec { return_type: Some(param_type@), ..self@ }),
    {
        let r = NodeMetadata { return_type: Some(TypeInfo::new(param_type)), ..self };
        proof {
            assert(r@ =~= (MetaSpec { return_type: Some(param_type@), ..self@ }));
        }
        r
    }

    /// The same descriptor with the given execution-output pin names.
    pub fn with_exec_outputs(self, exec_outputs: Vec<String>) -> (r: Self)
        ensures
            r@ == (MetaSpec { exec_outputs: exec_outputs@.map_values(|s: String| s@), ..self@ }),
    {
        let r = NodeMetadata { exec_outputs, ..self };
        proof {
            assert(r@ =~= (MetaSpec {
                exec_outputs: r.exec_outputs@.map_values(|s: String| s@),
                ..self@
            }));
        }
        r
    }

    /// The same descriptor with the given source template.
    pub fn with_source(self, source: &str) -> (r: Self)
        ensures
            r@ == (MetaSpec { source: source@, ..self@ }),
    {
        let r = NodeMetadata { source: String::from_str(source), ..self };
        proof {
            assert(r@ =~= (MetaSpec { source: source@, ..self@ }));
        }
        r
    }
}

/// The first descriptor in the list with the given name, if any.
pub open spec fn find_meta(metas: Seq<NodeMetadata>, name: Seq<char>) -> Option<NodeMetadata>
    decreases metas.len(),
{
    if metas.len() == 0 {
        None
    } else if metas[0].name@ == name {
        Some(metas[0])
    } else {
        find_meta(metas.drop_first(), name)
    }
}

/// Spec-level counterpart of `find_meta`, over descriptor views.
pub open spec fn meta_lookup(metas: Seq<MetaSpec>, name: Seq<char>) -> Option<MetaSpec>
    decreases metas.len(),
{
    if metas.len() == 0 {
        None
    } else if metas[0].name == name {
        Some(metas[0])
    } else {
        meta_lookup(metas.drop_first(), name)
    }
}

/// `find_meta` and `meta_lookup` agree through the view.
pub proof fn lemma_find_meta_view(metas: Seq<NodeMetadata>, name: Seq<char>)
    ensures
        match find_meta(metas, name) {
            Some(m) => meta_lookup(metas.map_values(|x: NodeMetadata| x@), name) == Some(m@),
            None => meta_lookup(metas.map_values(|x: NodeMetadata| x@), name) is None,
        },
    decreases metas.len(),
{
    let views = metas.map_values(|x: NodeMetadata| x@);
    if metas.len() > 0 {
        assert(views[0] == metas[0]@);
        if metas[0].name@ != name {
            lemma_find_meta_view(metas.drop_first(), name);
            assert(metas.drop_first().map_values(|x: NodeMetadata| x@) =~= views.drop_first());
        }
    }
}

/// The read-only catalog of node descriptors, keyed by type name.
pub struct ShaderMetadataProvider {
    pub nodes: Vec<NodeMetadata>,
}

impl View for ShaderMetadataProvider {
    type V = Seq<MetaSpec>;

    open spec fn view(&self) -> Seq<MetaSpec> {
        self.nodes@.map_values(|m: NodeMetadata| m@)
    }
}

/// Every descriptor the catalog holds, in catalog order.
pub fn get_shader_nodes() -> (r: Vec<NodeMetadata>)
    ensures
        r@.map_values(|m: NodeMetadata| m@) == nodes::catalog(),
{
    nodes::build_catalog()
}

impl ShaderMetadataProvider {
    /// A provider over the full static catalog.
    pub fn new() -> (r: Self)
        ensures
            r@ == nodes::catalog(),
    {
        ShaderMetadataProvider { nodes: get_shader_nodes() }
    }

    /// The first descriptor with the given type name, if any. Lookup has no
    /// side effects, and an absent entry is a normal outcome.
    pub fn get_node_metadata(&self, node_type: &str) -> (r: Option<&NodeMetadata>)
        ensures
            match r {
                Some(m) => find_meta(self.nodes@, node_type@) == Some(*m),
                None => find_meta(self.nodes@, node_type@) is None,
            },
    {
        let n = self.nodes.len();
        proof {
            assert(self.nodes@.skip(0) =~= self.nodes@);
        }
        for i in 0..n
            invariant
                n == self.nodes@.len(),
                find_meta(self.nodes@, node_type@) == find_meta(
                    self.nodes@.skip(i as int),
                    node_type@,
                ),
        {
            proof {
                assert(self.nodes@.skip(i as int)[0] == self.nodes@[i as int]);
            }
            if crate::text::str_eq(self.nodes[i].name.as_str(), node_type) {
                return Some(&self.nodes[i]);
            }
            proof {
                assert(self.nodes@.skip(i as int).drop_first() =~= self.nodes@.skip(i + 1));
            }
        }
        proof {
            assert(self.nodes@.skip(n as int) =~= Seq::<NodeMetadata>::empty());
        }
        None
    }

    /// All descriptors, in catalog order.
    pub fn get_all_nodes(&self) -> (r: Vec<&NodeMetadata>)
        ensures
            r@.len() == self.nodes@.len(),
            forall|i: int| 0 <= i < r@.len() ==> *r@[i] == self.nodes@[i],
    {
        let mut r: Vec<&NodeMetadata> = Vec::new();
        let n = self.nodes.len();
        for i in 0..n
            invariant
                n == self.nodes@.len(),
                r@.len() == i,
                forall|j: int| 0 <= j < i ==> *r@[j] == self.nodes@[j],
        {
            r.push(&self.nodes[i]);
        }
        r
    }

    /// The descriptors whose category equals the given name, in catalog
    /// order.
    pub fn get_nodes_by_category(&self, category: &str) -> (r: Vec<&NodeMetadata>)
        ensures
            r@.map_values(|m: &NodeMetadata| *m) == self.nodes@.filter(
                |m: NodeMetadata| m.category@ == category@,
            ),
    {
        let mut r: Vec<&NodeMetadata> = Vec::new();
        let n = self.nodes.len();
        proof {
            assert(self.nodes@.take(0) =~= Seq::<NodeMetadata>::empty());
            assert(r@.map_values(|m: &NodeMetadata| *m) =~= self.nodes@.take(0).filter(
                |m: NodeMetadata| m.category@ == category@,
            ));
        }
        for i in 0..n
            invariant
                n == self.nodes@.len(),
                r@.map_values(|m: &NodeMetadata| *m) == self.nodes@.take(i as int).filter(
                    |m: NodeMetadata| m.category@ == category@,
                ),
        {
            proof {
                reveal_with_fuel(Seq::filter, 2);
                assert(self.nodes@.take(i + 1).drop_last() =~= self.nodes@.take(i as int));
                assert(self.nodes@.take(i + 1).last() == self.nodes@[i as int]);
            }
            if crate::text::str_eq(self.nodes[i].category.as_str(), category) {
                r.push(&self.nodes[i]);
                proof {
                    assert(r@.map_values(|m: &NodeMetadata| *m) =~= r@.drop_last().map_values(
                        |m: &NodeMetadata| *m,
                    ).push(self.nodes@[i as int]));
                }
            }
        }
        proof {
            assert(self.nodes@.take(n as int) =~= self.nodes@);
        }
        r
    }
}

impl Default for ShaderMetadataProvider {
    /// The same provider `new` builds.
    fn default() -> (r: Self)
        ensures
            r@ == nodes::catalog(),
    {
        ShaderMetadataProvider::new()
    }
}

} // verus!
