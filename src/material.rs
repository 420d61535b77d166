use vstd::prelude::*;

verus! {

/// The materials of a loaded geometry, looked up by material name. A single
/// object may use several of them, one per named face group.
pub struct MaterialSet<M> {
    names: Vec<String>,
    materials: Vec<M>,
}

/// Position of `key` among `names`, when it is there.
pub open spec fn position_of(names: Seq<String>, key: Seq<char>) -> int {
    choose|i: int| 0 <= i < names.len() && names[i]@ == key
}

impl<M> MaterialSet<M> {
    pub closed spec fn names(self) -> Seq<String> {
        self.names@
    }

    pub closed spec fn materials(self) -> Seq<M> {
        self.materials@
    }

    /// Names are unique and each has one material.
    pub closed spec fn wf(self) -> bool {
        &&& self.names@.len() == self.materials@.len()
        &&& forall|i: int, j: int|
            0 <= i < self.names@.len() && 0 <= j < self.names@.len() && i != j ==> (
            #[trigger] self.names@[i])@ != (#[trigger] self.names@[j])@
    }

    /// The materials by name.
    pub closed spec fn view(self) -> Map<Seq<char>, M> {
        Map::new(
            |k: Seq<char>| exists|i: int| 0 <= i < self.names@.len() && (#[trigger] self.names@[i])@ == k,
            |k: Seq<char>| self.materials@[position_of(self.names@, k)],
        )
    }

    proof fn lemma_lookup(self, i: int)
        requires
            self.wf(),
            0 <= i < self.names@.len(),
        ensures
            self@.contains_key(self.names@[i]@),
            self@[self.names@[i]@] == self.materials@[i],
    {
        let k = self.names@[i]@;
        assert(self@.contains_key(k));
        let j = position_of(self.names@, k);
        assert(0 <= j < self.names@.len() && self.names@[j]@ == k);
    }

    /// An empty set.
    pub fn new() -> (s: MaterialSet<M>)
        ensures
            s.wf(),
            s@ == Map::<Seq<char>, M>::empty(),
    {
        let s = MaterialSet { names: Vec::new(), materials: Vec::new() };
        assert(s@ =~= Map::<Seq<char>, M>::empty());
        s
    }

    /// Position of `key`, if some material has that name.
    fn find(&self, key: &String) -> (r: Option<usize>)
        requires
            self.wf(),
        ensures
            r matches Some(i) ==> i < self.names@.len() && self.names@[i as int]@ == key@,
            r is None ==> !self@.contains_key(key@),
    {
        let mut i: usize = 0;
        while i < self.names.len()
            invariant
                self.wf(),
                i <= self.names@.len(),
                forall|j: int| 0 <= j < i ==> (#[trigger] self.names@[j])@ != key@,
            decreases self.names@.len() - i,
        {
            if self.names[i] == *key {
                return Some(i);
            }
            i = i + 1;
        }
        None
    }

    /// Whether some material is named `key`.
    pub fn contains(&self, key: &String) -> (r: bool)
        requires
            self.wf(),
        ensures
            r == self@.contains_key(key@),
    {
        match self.find(key) {
            Some(i) => {
                proof {
                    self.lemma_lookup(i as int);
                }
                true
            },
            None => false,
        }
    }

    /// Names `value` as `key`; a material already under that name is replaced.
    pub fn add(&mut self, key: String, value: M)
        requires
            old(self).wf(),
        ensures
            final(self).wf(),
            final(self)@ == old(self)@.insert(key@, value),
    {
        match self.find(&key) {
            Some(i) => {
                let ghost before = *self;
                self.materials.set(i, value);
                proof {
                    assert forall|k: Seq<char>| #[trigger] self@.contains_key(k) implies self@[k]
                        == before@.insert(key@, value)[k] by {
                        let j = position_of(self.names@, k);
                        assert(0 <= j < self.names@.len() && self.names@[j]@ == k);
                        before.lemma_lookup(j);
                    }
                    assert(self@ =~= before@.insert(key@, value));
                }
            },
            None => {
                let ghost before = *self;
                self.names.push(key);
                self.materials.push(value);
                proof {
                    let n = before.names@.len() as int;
                    assert(self.names@[n]@ == key@);
                    assert forall|k: Seq<char>| #[trigger] self@.contains_key(k) implies self@[k]
                        == before@.insert(key@, value)[k] by {
                        let j = position_of(self.names@, k);
                        assert(0 <= j < self.names@.len() && self.names@[j]@ == k);
                        if j < n {
                            assert(before.names@[j] == self.names@[j]);
                            before.lemma_lookup(j);
                        }
                    }
                    assert forall|k: Seq<char>| before@.insert(key@, value).contains_key(k)
                        implies #[trigger] self@.contains_key(k) by {
                        if k != key@ {
                            let j = choose|j: int| 0 <= j < before.names@.len() && (#[trigger] before.names@[j])@ == k;
                            assert(self.names@[j] == before.names@[j]);
                        }
                    }
                    assert(self@ =~= before@.insert(key@, value));
                }
            },
        }
    }

    /// The material named `key`.
    pub fn get(&self, key: &String) -> (m: &M)
        requires
            self.wf(),
            self@.contains_key(key@),
        ensures
            *m == self@[key@],
    {
        let i = self.find(key).unwrap();
        proof {
            self.lemma_lookup(i as int);
        }
        &self.materials[i]
    }
}

impl<M> MaterialSet<M> {
    /// The material under `name` when there is a name and the set holds it,
    /// else `fallback`: how a face group that names its material finds it.
    pub fn get_or<'a>(&'a self, name: &Option<String>, fallback: &'a M) -> (m: &'a M)
        requires
            self.wf(),
        ensures
            *m == (if name is Some && self@.contains_key(name->0@) {
                self@[name->0@]
            } else {
                *fallback
            }),
    {
        match name {
            Some(key) => match self.find(key) {
                Some(i) => {
                    proof {
                        self.lemma_lookup(i as int);
                    }
                    &self.materials[i]
                },
                None => fallback,
            },
            None => fallback,
        }
    }
}

/// The name under which a set made from one material holds it.
pub open spec fn default_material_name() -> Seq<char> {
    "__default__"@
}

impl<M> MaterialSet<M> {
    /// A set holding `mat` alone, under the default name.
    pub fn new_with_default_material(mat: M) -> (s: MaterialSet<M>)
        ensures
            s.wf(),
            s@ == map![default_material_name() => mat],
    {
        let mut s = MaterialSet::new();
        let name = "__default__".to_string();
        s.add(name, mat);
        assert(s@ =~= map![default_material_name() => mat]);
        s
    }
}

/// What a material record of a wavefront material library stands for.
#[derive(Clone, Copy, Debug, PartialEq, Eq, Structural)]
pub enum WavefrontRole {
    /// A light source, emitting its ambient colour scaled by a fixed intensity.
    Emissive,
    /// A diffuse surface with the record's diffuse colour as albedo.
    Diffuse,
}

/// The name that marks a wavefront material record as a light source.
pub open spec fn light_material_name() -> Seq<char> {
    "Light"@
}

/// Maps a wavefront material record, by its name, onto the material it is
/// rendered as: the record named exactly `Light` is emissive, every other
/// one diffuse.
pub fn wavefront_role(name: &String) -> (role: WavefrontRole)
    ensures
        role == (if name@ == light_material_name() {
            WavefrontRole::Emissive
        } else {
            WavefrontRole::Diffuse
        }),
{
    let light = "Light".to_string();
    if *name == light {
        WavefrontRole::Emissive
    } else {
        WavefrontRole::Diffuse
    }
}

} // verus!
