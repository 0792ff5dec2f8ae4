//! The part of a shader program that a material owns: which shader it is made
//! from, which variant of it is wanted, and whether it has to be built again.

use vstd::prelude::*;

verus! {

/// A feature of a shader that can be switched on; it selects the variant that
/// is compiled.
#[derive(Debug, Clone, Copy, PartialEq, Eq, Hash, Structural)]
pub enum ShaderTag {
    Lighting,
    Shadow,
}

/// How a material's color is combined with what has been drawn already.
#[derive(Debug, Clone, Copy, PartialEq, Eq, Structural)]
pub enum Blending {
    NoBlending,
    Additive,
    Transparent,
}

/// A shader by name, with the tags that are switched on.
#[derive(Debug, Clone)]
pub struct ShaderProgram {
    src: String,
    tags: Vec<ShaderTag>,
    need_update: bool,
}

/// What a [`ShaderProgram`] stands for.
pub ghost struct ShaderProgramModel {
    /// The name of the shader.
    pub src: Seq<char>,
    pub tags: Set<ShaderTag>,
    /// Whether the compiled program no longer fits and has to be rebuilt.
    pub need_update: bool,
}

impl View for ShaderProgram {
    type V = ShaderProgramModel;

    closed spec fn view(&self) -> ShaderProgramModel {
        ShaderProgramModel {
            src: self.src@,
            tags: self.tags@.to_set(),
            need_update: self.need_update,
        }
    }
}

impl ShaderProgram {
    /// A program for the shader `src`, without tags, that has yet to be built.
    pub fn new(src: String) -> (program: Self)
        ensures
            program@ == (ShaderProgramModel { src: src@, tags: Set::empty(), need_update: true }),
    {
        let program = ShaderProgram { src, tags: Vec::new(), need_update: true };
        assert(program.tags@.to_set() =~= Set::empty());
        program
    }

    pub fn get_src(&self) -> (src: &str)
        ensures
            src@ == self@.src,
    {
        self.src.as_str()
    }

    pub fn is_need_update(&self) -> (b: bool)
        ensures
            b == self@.need_update,
    {
        self.need_update
    }

    pub fn set_need_update(&mut self, need_update: bool)
        ensures
            final(self)@ == (ShaderProgramModel { need_update, ..old(self)@ }),
    {
        self.need_update = need_update;
    }

    pub fn has_tag(&self, tag: ShaderTag) -> (b: bool)
        ensures
            b == self@.tags.contains(tag),
    {
        let mut i: usize = 0;
        while i < self.tags.len()
            invariant
                i <= self.tags.len(),
                forall|j: int| 0 <= j < i ==> self.tags@[j] != tag,
            decreases self.tags.len() - i,
        {
            if self.tags[i] == tag {
                assert(self.tags@.contains(tag));
                return true;
            }
            i = i + 1;
        }
        assert(!self.tags@.contains(tag));
        false
    }

    /// Switches `tag` on. The program has to be rebuilt afterwards.
    pub fn add_tag(&mut self, tag: ShaderTag)
        ensures
            final(self)@ == (ShaderProgramModel {
                tags: old(self)@.tags.insert(tag),
                need_update: true,
                ..old(self)@
            }),
    {
        if !self.has_tag(tag) {
            self.tags.push(tag);
            proof {
                old(self).tags@.lemma_push_to_set_commute(tag);
            }
        } else {
            assert(self.tags@.to_set() =~= self.tags@.to_set().insert(tag));
        }
        self.need_update = true;
    }

    /// Switches `tag` off. The program has to be rebuilt afterwards.
    pub fn remove_tag(&mut self, tag: ShaderTag)
        ensures
            final(self)@ == (ShaderProgramModel {
                tags: old(self)@.tags.remove(tag),
                need_update: true,
                ..old(self)@
            }),
    {
        let mut kept: Vec<ShaderTag> = Vec::new();
        let mut i: usize = 0;
        assert(kept@.to_set() =~= self.tags@.take(0).to_set().remove(tag));
        while i < self.tags.len()
            invariant
                i <= self.tags.len(),
                self.tags@ == old(self).tags@,
                kept@.to_set() == self.tags@.take(i as int).to_set().remove(tag),
            decreases self.tags.len() - i,
        {
            let t = self.tags[i];
            let ghost before = kept@;
            let ghost seen = self.tags@.take(i as int);
            if t != tag {
                kept.push(t);
            }
            proof {
                assert(self.tags@.take(i + 1) =~= seen.push(t));
                seen.lemma_push_to_set_commute(t);
                before.lemma_push_to_set_commute(t);
                assert(kept@.to_set() =~= seen.push(t).to_set().remove(tag));
            }
            i = i + 1;
        }
        assert(self.tags@.take(i as int) == self.tags@);
        self.tags = kept;
        self.need_update = true;
    }

    /// The tags that are switched on, each once.
    pub fn get_tags(&self) -> (tags: Vec<ShaderTag>)
        ensures
            tags@.to_set() == self@.tags,
            tags@.no_duplicates(),
    {
        let mut tags: Vec<ShaderTag> = Vec::new();
        if self.has_tag(ShaderTag::Lighting) {
            tags.push(ShaderTag::Lighting);
        }
        if self.has_tag(ShaderTag::Shadow) {
            tags.push(ShaderTag::Shadow);
        }
        assert(tags@.to_set() =~= self.tags@.to_set()) by {
            assert forall|t: ShaderTag| #[trigger]
                tags@.to_set().contains(t) == self.tags@.to_set().contains(t) by {
                if tags@.contains(t) {
                    let j = choose|j: int| 0 <= j < tags@.len() && tags@[j] == t;
                }
                if self.tags@.contains(t) {
                    if t == ShaderTag::Lighting {
                        assert(tags@[0] == t);
                    } else {
                        assert(tags@[tags@.len() - 1] == t);
                    }
                }
            }
        }
        tags
    }
}

} // verus!
