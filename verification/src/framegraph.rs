//! Frame graph building blocks: named resources, pass identifiers, and the
//! read/write dependency lists a pass declares.

use vstd::prelude::*;

verus! {

use crate::gfx::TextureHandle;

/// A frame graph resource, identified by name.
#[derive(Clone, Debug, PartialEq, Eq, Hash)]
pub struct ResourceId {
    name: String,
}

impl ResourceId {
    /// The resource's name.
    pub closed spec fn spec_name(&self) -> Seq<char> {
        self.name@
    }

    /// The resource named `name`.
    pub fn new(name: &str) -> (r: ResourceId)
        ensures
            r.spec_name() == name@,
    {
        ResourceId { name: name.to_owned() }
    }

    /// The resource's name.
    pub fn name(&self) -> (r: &str)
        ensures
            r@ == self.spec_name(),
    {
        self.name.as_str()
    }
}

/// A rendering pass, identified by its position in the graph.
#[derive(Clone, Copy, Debug, PartialEq, Eq, Hash, Structural)]
pub struct PassId(pub u32);

/// Collects the resource dependencies one pass declares: which resources
/// it reads and which it writes.
pub struct PassBuilder {
    pass_id: PassId,
    reads: Vec<ResourceId>,
    writes: Vec<ResourceId>,
}

impl PassBuilder {
    /// The pass being declared.
    pub closed spec fn spec_pass_id(&self) -> PassId {
        self.pass_id
    }

    /// The resources declared as read, in declaration order.
    pub closed spec fn spec_reads(&self) -> Seq<ResourceId> {
        self.reads@
    }

    /// The resources declared as written, in declaration order.
    pub closed spec fn spec_writes(&self) -> Seq<ResourceId> {
        self.writes@
    }

    /// An identical copy of a resource identifier.
    fn duplicate(resource: &ResourceId) -> (r: ResourceId)
        ensures
            r == *resource,
    {
        ResourceId { name: resource.name.clone() }
    }

    /// A builder for `pass_id` with no dependencies yet.
    pub fn new(pass_id: PassId) -> (r: PassBuilder)
        ensures
            r.spec_pass_id() == pass_id,
            r.spec_reads().len() == 0,
            r.spec_writes().len() == 0,
    {
        PassBuilder { pass_id, reads: Vec::new(), writes: Vec::new() }
    }

    /// Declares that the pass reads `resource`.
    pub fn read(&mut self, resource: &ResourceId)
        ensures
            final(self).spec_pass_id() == old(self).spec_pass_id(),
            final(self).spec_reads() == old(self).spec_reads().push(*resource),
            final(self).spec_writes() == old(self).spec_writes(),
    {
        self.reads.push(PassBuilder::duplicate(resource));
    }

    /// The resources declared as read so far.
    pub fn reads(&self) -> (r: &Vec<ResourceId>)
        ensures
            r@ == self.spec_reads(),
    {
        &self.reads
    }

    /// The resources declared as written so far.
    pub fn writes(&self) -> (r: &Vec<ResourceId>)
        ensures
            r@ == self.spec_writes(),
    {
        &self.writes
    }

    /// The pass being declared.
    pub fn pass_id(&self) -> (r: PassId)
        ensures
            r == self.spec_pass_id(),
    {
        self.pass_id
    }

    /// Declares that the pass writes `resource`.
    pub fn write(&mut self, resource: &ResourceId)
        ensures
            final(self).spec_pass_id() == old(self).spec_pass_id(),
            final(self).spec_reads() == old(self).spec_reads(),
            final(self).spec_writes() == old(self).spec_writes().push(*resource),
    {
        self.writes.push(PassBuilder::duplicate(resource));
    }
}

/// The texture registered under `name`, if any.
pub open spec fn find_texture(s: Seq<(String, TextureHandle)>, name: Seq<char>) -> Option<
    TextureHandle,
>
    decreases s.len(),
{
    if s.len() == 0 {
        None
    } else if s.last().0@ == name {
        Some(s.last().1)
    } else {
        find_texture(s.drop_last(), name)
    }
}

/// The textures a pass may use during execution, by resource name.
pub struct PassResources {
    textures: Vec<(String, TextureHandle)>,
}

impl PassResources {
    /// The registered textures, in registration order.
    pub closed spec fn spec_textures(&self) -> Seq<(String, TextureHandle)> {
        self.textures@
    }

    /// No resources yet.
    pub fn new() -> (r: PassResources)
        ensures
            r.spec_textures().len() == 0,
    {
        PassResources { textures: Vec::new() }
    }

    /// Registers `handle` under `name`; a later registration under the
    /// same name shadows an earlier one.
    pub fn add(&mut self, name: &str, handle: TextureHandle)
        ensures
            final(self).spec_textures().len() == old(self).spec_textures().len() + 1,
            final(self).spec_textures().last().0@ == name@,
            final(self).spec_textures().last().1 == handle,
            final(self).spec_textures().drop_last() == old(self).spec_textures(),
            find_texture(final(self).spec_textures(), name@) == Some(handle),
            forall|n: Seq<char>|
                n != name@ ==> #[trigger] find_texture(final(self).spec_textures(), n)
                    == find_texture(old(self).spec_textures(), n),
    {
        self.textures.push((name.to_owned(), handle));
        proof {
            assert(self.spec_textures().drop_last() =~= old(self).spec_textures());
        }
    }

    /// The texture registered under `name`, or the invalid handle when
    /// none is.
    pub fn get_texture(&self, name: &str) -> (r: TextureHandle)
        ensures
            r == match find_texture(self.spec_textures(), name@) {
                Some(h) => h,
                None => TextureHandle(u32::MAX),
            },
    {
        let owned: String = name.to_owned();
        let n = self.textures.len();
        let mut i: usize = n;
        proof {
            assert(self.spec_textures().take(n as int) =~= self.spec_textures());
        }
        while i > 0
            invariant
                n == self.spec_textures().len(),
                i <= n,
                owned@ == name@,
                find_texture(self.spec_textures(), name@) == find_texture(
                    self.spec_textures().take(i as int),
                    name@,
                ),
            decreases i,
        {
            proof {
                assert(self.spec_textures().take(i as int).drop_last() =~= self.spec_textures()
                    .take(i as int - 1));
                assert(self.spec_textures().take(i as int).last() == self.spec_textures()[
                    i as int - 1]);
            }
            if self.textures[i - 1].0 == owned {
                return self.textures[i - 1].1;
            }
            i = i - 1;
        }
        proof {
            assert(self.spec_textures().take(0) =~= Seq::<(String, TextureHandle)>::empty());
        }
        TextureHandle::invalid()
    }
}

} // verus!
