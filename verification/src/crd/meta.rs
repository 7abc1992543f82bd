use vstd::prelude::*;

verus! {

/// The part of a Kubernetes object's metadata the library reads and writes.
#[derive(Clone, Debug)]
pub struct ObjectMeta {
    pub name: Option<String>,
    pub generate_name: Option<String>,
    pub namespace: Option<String>,
    pub uid: Option<String>,
}

pub open spec fn opt_str(o: Option<String>) -> Option<Seq<char>> {
    match o {
        Some(s) => Some(s@),
        None => None,
    }
}

/// The name an object is known by: its name, else its generate-name prefix, else empty.
pub open spec fn name_any_of(m: ObjectMeta) -> Seq<char> {
    match m.name {
        Some(n) => n@,
        None => match m.generate_name {
            Some(g) => g@,
            None => Seq::empty(),
        },
    }
}

/// The namespace an object lives in, empty when unset.
pub open spec fn namespace_of(m: ObjectMeta) -> Seq<char> {
    match m.namespace {
        Some(n) => n@,
        None => Seq::empty(),
    }
}

fn clone_opt(o: &Option<String>) -> (r: Option<String>)
    ensures
        r == *o,
{
    match o {
        Some(s) => Some(s.clone()),
        None => None,
    }
}

impl ObjectMeta {
    /// Metadata with only a name and a namespace.
    pub fn named(name: String, namespace: String) -> (r: Self)
        ensures
            r.name == Some(name),
            r.namespace == Some(namespace),
            r.generate_name is None,
            r.uid is None,
    {
        ObjectMeta { name: Some(name), generate_name: None, namespace: Some(namespace), uid: None }
    }

    /// Empty metadata.
    pub fn empty() -> (r: Self)
        ensures
            r.name is None,
            r.namespace is None,
            r.generate_name is None,
            r.uid is None,
    {
        ObjectMeta { name: None, generate_name: None, namespace: None, uid: None }
    }

    /// The name, else the generate-name prefix, else an empty string.
    pub fn name_any(&self) -> (r: String)
        ensures
            r@ == name_any_of(*self),
    {
        match &self.name {
            Some(n) => n.clone(),
            None => match &self.generate_name {
                Some(g) => g.clone(),
                None => String::new(),
            },
        }
    }

    /// The namespace, or an empty string.
    pub fn namespace_or_empty(&self) -> (r: String)
        ensures
            r@ == namespace_of(*self),
    {
        match &self.namespace {
            Some(n) => n.clone(),
            None => String::new(),
        }
    }

    pub fn namespace_cloned(&self) -> (r: Option<String>)
        ensures
            r == self.namespace,
    {
        clone_opt(&self.namespace)
    }
}

/// A reference from an object to the object that owns it.
#[derive(Clone, Debug)]
pub struct OwnerReference {
    pub api_version: String,
    pub kind: String,
    pub name: String,
    pub uid: String,
    pub controller: Option<bool>,
    pub block_owner_deletion: Option<bool>,
}

} // verus!
