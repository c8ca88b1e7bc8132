//! Service manifests and the set of container names they declare.
use vstd::prelude::*;

use crate::error::RunError;
use crate::names::clone_string;

verus! {

/// One service of a manifest document as it was read, before validation.
#[derive(Debug, Clone)]
pub struct ServiceEntry {
    pub key: String,
    pub image: Option<String>,
    pub container_name: Option<String>,
}

/// A validated service declaration: its image is always present.
#[derive(Debug, Clone)]
pub struct ServiceDeclaration {
    pub key: String,
    pub image: String,
    pub container_name: Option<String>,
}

/// The services of a manifest, in document order.
#[derive(Debug, Clone)]
pub struct ServiceManifest {
    pub services: Vec<ServiceDeclaration>,
}

pub open spec fn opt_view(o: Option<String>) -> Option<Seq<char>> {
    match o {
        Some(s) => Some(s@),
        None => None,
    }
}

/// What a validated declaration keeps of an entry.
pub open spec fn declares(e: ServiceEntry, d: ServiceDeclaration) -> bool {
    &&& d.key@ == e.key@
    &&& e.image is Some && d.image@ == e.image.unwrap()@
    &&& opt_view(d.container_name) == opt_view(e.container_name)
}

/// The explicit container names of `services`, in order, unnamed ones skipped.
pub open spec fn declared_names(services: Seq<ServiceDeclaration>) -> Seq<Seq<char>>
    decreases services.len(),
{
    if services.len() == 0 {
        seq![]
    } else {
        let rest = declared_names(services.drop_last());
        match services.last().container_name {
            Some(n) => rest.push(n@),
            None => rest,
        }
    }
}

/// The expected-name set: a membership filter, order and duplicates ignored.
pub open spec fn expected_set(services: Seq<ServiceDeclaration>) -> Set<Seq<char>> {
    declared_names(services).to_set()
}

pub open spec fn no_explicit_names(services: Seq<ServiceDeclaration>) -> bool {
    forall|i: int| 0 <= i < services.len() ==> (#[trigger] services[i]).container_name is None
}

/// A manifest whose services carry no explicit container name expects no name.
pub proof fn lemma_unnamed_services_expect_nothing(services: Seq<ServiceDeclaration>)
    requires
        no_explicit_names(services),
    ensures
        declared_names(services) == Seq::<Seq<char>>::empty(),
        expected_set(services) == Set::<Seq<char>>::empty(),
    decreases services.len(),
{
    if services.len() > 0 {
        let rest = services.drop_last();
        assert(services.last() == services[services.len() - 1]);
        assert forall|i: int| 0 <= i < rest.len() implies (#[trigger] rest[i]).container_name is None by {
            assert(rest[i] == services[i]);
        }
        lemma_unnamed_services_expect_nothing(rest);
    }
    assert(declared_names(services).to_set() =~= Set::<Seq<char>>::empty());
}

fn clone_opt_string(o: &Option<String>) -> (r: Option<String>)
    ensures
        opt_view(r) == opt_view(*o),
{
    match o {
        Some(s) => Some(clone_string(s)),
        None => None,
    }
}

impl ServiceManifest {
    /// Validates the entries read from a manifest document. Fails with
    /// `ManifestFormat`, naming the first service that has no image.
    pub fn from_entries(entries: &Vec<ServiceEntry>) -> (r: Result<ServiceManifest, RunError>)
        ensures
            r is Ok <==> forall|i: int| 0 <= i < entries@.len() ==> (#[trigger] entries@[i]).image is Some,
            r matches Ok(m) ==> m.services@.len() == entries@.len() && forall|i: int|
                0 <= i < entries@.len() ==> declares(#[trigger] entries@[i], m.services@[i]),
            r matches Err(e) ==> exists|i: int|
                0 <= i < entries@.len() && (#[trigger] entries@[i]).image is None && (forall|j: int|
                    0 <= j < i ==> (#[trigger] entries@[j]).image is Some) && (e matches RunError::ManifestFormat(k)
                    && k@ == entries@[i].key@),
    {
        let mut services: Vec<ServiceDeclaration> = Vec::new();
        let mut i: usize = 0;
        while i < entries.len()
            invariant
                i <= entries@.len(),
                services@.len() == i,
                forall|j: int| 0 <= j < i ==> (#[trigger] entries@[j]).image is Some,
                forall|j: int| 0 <= j < i ==> declares(#[trigger] entries@[j], services@[j]),
            decreases entries@.len() - i,
        {
            let e = &entries[i];
            match &e.image {
                Some(image) => {
                    services.push(ServiceDeclaration {
                        key: clone_string(&e.key),
                        image: clone_string(image),
                        container_name: clone_opt_string(&e.container_name),
                    });
                },
                None => {
                    return Err(RunError::ManifestFormat(clone_string(&e.key)));
                },
            }
            i = i + 1;
        }
        Ok(ServiceManifest { services })
    }

    /// The explicit container names of the services, in order.
    pub fn expected_names(&self) -> (r: Vec<String>)
        ensures
            r@.map_values(|s: String| s@) == declared_names(self.services@),
    {
        let mut names: Vec<String> = Vec::new();
        let mut i: usize = 0;
        while i < self.services.len()
            invariant
                i <= self.services@.len(),
                names@.map_values(|s: String| s@) == declared_names(self.services@.subrange(0, i as int)),
            decreases self.services@.len() - i,
        {
            proof {
                assert(self.services@.subrange(0, i + 1).drop_last() =~= self.services@.subrange(0, i as int));
            }
            match &self.services[i].container_name {
                Some(n) => {
                    names.push(clone_string(n));
                },
                None => {},
            }
            i = i + 1;
            proof {
                assert(names@.map_values(|s: String| s@) =~= declared_names(self.services@.subrange(0, i as int)));
            }
        }
        proof {
            assert(self.services@.subrange(0, i as int) =~= self.services@);
        }
        names
    }
}

} // verus!
