//! The model space: the one place where the models of a session are
//! interned.

use vstd::prelude::*;
use vstd::string::*;
use crate::model::{
    Model, ModelHandle, NameModel, NameModelHandle, NamePathModel, NamePathModelHandle,
    ShaderFileModel, ShaderFileModelHandle, StringModel, StringModelHandle, TypeKey, TypeModel,
    TypeModelHandle,
};
use crate::model::name_model::name_keys;

verus! {

/// The keys of a list of handles, in order.
pub open spec fn keys<M: Model>(set: Seq<ModelHandle<M>>) -> Seq<M::Key> {
    Seq::new(set.len(), |i: int| set[i]@)
}

/// An interning set after `key` has been interned in it: unchanged where
/// it holds the key already, else with the key in a new slot at its end.
pub open spec fn interned<K>(set: Seq<K>, key: K) -> Seq<K> {
    if set.contains(key) {
        set
    } else {
        set.push(key)
    }
}

/// The slot of an interning set that holds `key`.
pub open spec fn slot_of<K>(set: Seq<K>, key: K) -> int
    recommends
        set.contains(key),
{
    choose|i: int| 0 <= i < set.len() && set[i] == key
}

/// What a model space holds, as mathematics: for each of its four
/// interning sets the keys interned so far, each in its slot, and the
/// paths of the shader files registered so far.
pub struct ModelSpaceView {
    pub strings: Seq<Seq<u8>>,
    pub names: Seq<Seq<u8>>,
    pub name_paths: Seq<Seq<Seq<u8>>>,
    pub type_models: Seq<TypeKey>,
    pub shader_files: Seq<Seq<u8>>,
}

impl ModelSpaceView {
    /// The space in which nothing has been interned.
    pub open spec fn empty() -> ModelSpaceView {
        ModelSpaceView {
            strings: seq![],
            names: seq![],
            name_paths: seq![],
            type_models: seq![],
            shader_files: seq![],
        }
    }

    /// No key stands in two slots of one set, and no path is registered
    /// twice.
    pub open spec fn well_formed(self) -> bool {
        &&& self.strings.no_duplicates()
        &&& self.names.no_duplicates()
        &&& self.name_paths.no_duplicates()
        &&& self.type_models.no_duplicates()
        &&& self.shader_files.no_duplicates()
    }

    /// The space after a string of key `key` has been interned.
    pub open spec fn intern_string(self, key: Seq<u8>) -> ModelSpaceView {
        ModelSpaceView { strings: interned(self.strings, key), ..self }
    }

    /// The space after a name of key `key` has been interned.
    pub open spec fn intern_name(self, key: Seq<u8>) -> ModelSpaceView {
        ModelSpaceView { names: interned(self.names, key), ..self }
    }

    /// The space after a path of key `key` has been interned.
    pub open spec fn intern_name_path(self, key: Seq<Seq<u8>>) -> ModelSpaceView {
        ModelSpaceView { name_paths: interned(self.name_paths, key), ..self }
    }

    /// The space after a type of key `key` has been interned.
    pub open spec fn intern_type(self, key: TypeKey) -> ModelSpaceView {
        ModelSpaceView { type_models: interned(self.type_models, key), ..self }
    }

    /// True when a shader file is registered under `path`.
    pub open spec fn has_shader_file(self, path: Seq<u8>) -> bool {
        self.shader_files.contains(path)
    }

    /// The space after a shader file has been registered under `path`.
    pub open spec fn add_shader_file(self, path: Seq<u8>) -> ModelSpaceView {
        ModelSpaceView { shader_files: self.shader_files.push(path), ..self }
    }
}

/// Interning keeps a set free of duplicates, holds the key afterwards, and
/// leaves every slot that was there as it was.
pub proof fn lemma_interned<K>(set: Seq<K>, key: K)
    requires
        set.no_duplicates(),
    ensures
        interned(set, key).no_duplicates(),
        interned(set, key).contains(key),
        set.len() <= interned(set, key).len(),
        forall|i: int| 0 <= i < set.len() ==> interned(set, key)[i] == set[i],
        0 <= slot_of(interned(set, key), key) < interned(set, key).len(),
        interned(set, key)[slot_of(interned(set, key), key)] == key,
{
    if !set.contains(key) {
        let after = set.push(key);
        assert(after[set.len() as int] == key);
        assert forall|i: int, j: int|
            0 <= i < after.len() && 0 <= j < after.len() && i != j implies after[i] != after[j] by {
            if i < set.len() && j < set.len() {
                assert(set[i] != set[j]);
            } else if i < set.len() {
                assert(set.contains(set[i]));
            } else {
                assert(set.contains(set[j]));
            }
        }
    }
    let i = choose|i: int| 0 <= i < interned(set, key).len() && interned(set, key)[i] == key;
}

/// To intern a key a second time changes nothing: the set stays as it
/// is, and the key stays in its slot.
pub proof fn law_intern_idempotent<K>(set: Seq<K>, key: K)
    requires
        set.no_duplicates(),
    ensures
        interned(interned(set, key), key) == interned(set, key),
        slot_of(interned(interned(set, key), key), key) == slot_of(interned(set, key), key),
        interned(set, key)[slot_of(interned(set, key), key)] == key,
{
    lemma_interned(set, key);
}

/// Two different keys are interned in two different slots, and to intern
/// the second leaves the first in its slot.
pub proof fn law_intern_distinct<K>(set: Seq<K>, a: K, b: K)
    requires
        set.no_duplicates(),
        a != b,
    ensures
        slot_of(interned(interned(set, a), b), a) != slot_of(interned(interned(set, a), b), b),
        slot_of(interned(interned(set, a), b), a) == slot_of(interned(set, a), a),
        interned(interned(set, a), b)[slot_of(interned(interned(set, a), b), a)] == a,
        interned(interned(set, a), b)[slot_of(interned(interned(set, a), b), b)] == b,
{
    lemma_interned(set, a);
    let one = interned(set, a);
    lemma_interned(one, b);
    let both = interned(one, b);
    let i = slot_of(one, a);
    assert(both[i] == a);
    assert(both.contains(a));
    let j = slot_of(both, a);
    assert(0 <= j < both.len() && both[j] == a);
    let k = slot_of(both, b);
    assert(0 <= k < both.len() && both[k] == b);
}

impl ModelSpaceView {
    /// To intern the same string, name, path or type a second time in one
    /// model space changes nothing.
    pub proof fn law_interning_idempotent(
        self,
        string: Seq<u8>,
        name: Seq<u8>,
        path: Seq<Seq<u8>>,
        ty: TypeKey,
    )
        requires
            self.well_formed(),
        ensures
            self.intern_string(string).intern_string(string) == self.intern_string(string),
            self.intern_name(name).intern_name(name) == self.intern_name(name),
            self.intern_name_path(path).intern_name_path(path) == self.intern_name_path(path),
            self.intern_type(ty).intern_type(ty) == self.intern_type(ty),
            self.intern_string(string).well_formed(),
            self.intern_name(name).well_formed(),
            self.intern_name_path(path).well_formed(),
            self.intern_type(ty).well_formed(),
    {
        law_intern_idempotent(self.strings, string);
        law_intern_idempotent(self.names, name);
        law_intern_idempotent(self.name_paths, path);
        law_intern_idempotent(self.type_models, ty);
        lemma_interned(self.strings, string);
        lemma_interned(self.names, name);
        lemma_interned(self.name_paths, path);
        lemma_interned(self.type_models, ty);
    }

    /// Names and strings are interned apart: a name never takes a slot
    /// among the strings, nor a string one among the names, whatever
    /// their text.
    pub proof fn law_names_apart_from_strings(self, text: Seq<u8>)
        ensures
            self.intern_name(text).strings == self.strings,
            self.intern_string(text).names == self.names,
    {
    }

    /// Once a shader file is registered under a path, the path is taken:
    /// no second file can be registered under it.
    pub proof fn law_registered_once(self, path: Seq<u8>)
        ensures
            self.add_shader_file(path).has_shader_file(path),
            forall|other: Seq<u8>|
                self.has_shader_file(other) ==> self.add_shader_file(path).has_shader_file(other),
    {
        let after = self.add_shader_file(path).shader_files;
        assert(after[self.shader_files.len() as int] == path);
        assert forall|other: Seq<u8>| self.has_shader_file(other) implies self.add_shader_file(
            path,
        ).has_shader_file(other) by {
            let i = choose|i: int|
                0 <= i < self.shader_files.len() && self.shader_files[i] == other;
            assert(after[i] == other);
        }
    }
}

/// What interning does to the handles of an interning set. The set
/// `before` becomes the set `after`, and `h` is the handle that is given
/// for `key`: it refers to a model of that key, and it is the one handle
/// that the set holds in the slot of that key. Nothing that the set held
/// has moved or changed, and the set has grown by one slot at most.
pub open spec fn interns<M: Model>(
    before: Seq<ModelHandle<M>>,
    key: M::Key,
    after: Seq<ModelHandle<M>>,
    h: ModelHandle<M>,
) -> bool {
    &&& keys(after) == interned(keys(before), key)
    &&& keys(after).no_duplicates()
    &&& h@ == key
    &&& 0 <= slot_of(keys(after), key) < after.len()
    &&& h == after[slot_of(keys(after), key)]
    &&& before.len() <= after.len()
    &&& forall|i: int| 0 <= i < before.len() ==> after[i] == before[i]
}

/// To intern the same key twice in one set gives the same handle twice:
/// the two are equal, and they refer to the one instance in the slot of
/// the key. The second time changes nothing in the set.
pub proof fn law_interning_twice<M: Model>(
    a: Seq<ModelHandle<M>>,
    b: Seq<ModelHandle<M>>,
    c: Seq<ModelHandle<M>>,
    key: M::Key,
    first: ModelHandle<M>,
    second: ModelHandle<M>,
)
    requires
        keys(a).no_duplicates(),
        interns(a, key, b, first),
        interns(b, key, c, second),
    ensures
        first == second,
        c == b,
        slot_of(keys(c), key) == slot_of(keys(b), key),
{
    lemma_interned(keys(a), key);
    lemma_interned(keys(b), key);
    assert(keys(c) == keys(b));
    assert(c.len() == keys(c).len());
    assert(b.len() == keys(b).len());
    assert(c =~= b);
}

/// To intern two different keys in one set gives two different handles,
/// in two different slots, and the first stays in its slot when the
/// second is interned.
pub proof fn law_interning_distinct<M: Model>(
    a: Seq<ModelHandle<M>>,
    b: Seq<ModelHandle<M>>,
    c: Seq<ModelHandle<M>>,
    one: M::Key,
    other: M::Key,
    first: ModelHandle<M>,
    second: ModelHandle<M>,
)
    requires
        keys(a).no_duplicates(),
        one != other,
        interns(a, one, b, first),
        interns(b, other, c, second),
    ensures
        first@ != second@,
        first != second,
        slot_of(keys(c), one) != slot_of(keys(c), other),
        c[slot_of(keys(c), one)] == first,
        c[slot_of(keys(c), other)] == second,
{
    lemma_interned(keys(a), one);
    lemma_interned(keys(b), other);
    let i = slot_of(keys(b), one);
    assert(b[i] == first);
    assert(c[i] == first);
    assert(keys(c)[i] == c[i]@);
    lemma_slot(c, i);
    let j = slot_of(keys(c), other);
    assert(keys(c)[j] == c[j]@);
}

/// A model space holds the models of one session. It owns four interning
/// sets, of strings, of names, of paths of names and of types, and the
/// shader files registered under their paths. Nothing ever leaves it.
#[derive(Clone)]
pub struct ModelSpace {
    strings: Vec<StringModelHandle>,
    names: Vec<NameModelHandle>,
    name_paths: Vec<NamePathModelHandle>,
    type_models: Vec<TypeModelHandle>,
    shader_file_models_by_path: Vec<ShaderFileModelHandle>,
}

impl View for ModelSpace {
    type V = ModelSpaceView;

    open spec fn view(&self) -> ModelSpaceView {
        ModelSpaceView {
            strings: keys(self.string_handles()),
            names: keys(self.name_handles()),
            name_paths: keys(self.name_path_handles()),
            type_models: keys(self.type_handles()),
            shader_files: keys(self.shader_file_handles()),
        }
    }
}

impl ModelSpace {
    /// The handles of the interned strings, each in its slot.
    pub closed spec fn string_handles(&self) -> Seq<StringModelHandle> {
        self.strings@
    }

    /// The handles of the interned names, each in its slot.
    pub closed spec fn name_handles(&self) -> Seq<NameModelHandle> {
        self.names@
    }

    /// The handles of the interned paths, each in its slot.
    pub closed spec fn name_path_handles(&self) -> Seq<NamePathModelHandle> {
        self.name_paths@
    }

    /// The handles of the interned types, each in its slot.
    pub closed spec fn type_handles(&self) -> Seq<TypeModelHandle> {
        self.type_models@
    }

    /// The handles of the registered shader files, in the order of their
    /// registration.
    pub closed spec fn shader_file_handles(&self) -> Seq<ShaderFileModelHandle> {
        self.shader_file_models_by_path@
    }

    /// True when `h` is one of the handles to names that the space holds.
    pub open spec fn holds_name(&self, h: NameModelHandle) -> bool {
        self.name_handles().contains(h)
    }

    /// A space in which nothing has been interned.
    pub fn new() -> (r: ModelSpace)
        ensures
            r@ == ModelSpaceView::empty(),
            r@.well_formed(),
    {
        let r = ModelSpace {
            strings: Vec::new(),
            names: Vec::new(),
            name_paths: Vec::new(),
            type_models: Vec::new(),
            shader_file_models_by_path: Vec::new(),
        };
        proof {
            assert(r@.strings =~= seq![]);
            assert(r@.names =~= seq![]);
            assert(r@.name_paths =~= seq![]);
            assert(r@.type_models =~= seq![]);
            assert(r@.shader_files =~= seq![]);
        }
        r
    }

    /// The slot that holds the string of text `string`, if one does.
    fn find_string(&self, string: &str) -> (r: Option<usize>)
        ensures
            match r {
                Some(i) => i < self.strings@.len() && self.strings@[i as int]@
                    == string.spec_bytes(),
                None => !keys(self.strings@).contains(string.spec_bytes()),
            },
    {
        let mut i: usize = 0;
        while i < self.strings.len()
            invariant
                i <= self.strings@.len(),
                forall|k: int| 0 <= k < i ==> (#[trigger] self.strings@[k])@ != string.spec_bytes(),
            decreases self.strings@.len() - i,
        {
            if self.strings[i].borrow().has_text(string) {
                return Some(i);
            }
            i = i + 1;
        }
        proof {
            assert forall|k: int| 0 <= k < keys(self.strings@).len() implies keys(
                self.strings@,
            )[k] != string.spec_bytes() by {
                assert(keys(self.strings@)[k] == self.strings@[k]@);
            }
        }
        None
    }

    /// The slot that holds the name of text `string`, if one does.
    fn find_name(&self, string: &str) -> (r: Option<usize>)
        ensures
            match r {
                Some(i) => i < self.names@.len() && self.names@[i as int]@ == string.spec_bytes(),
                None => !keys(self.names@).contains(string.spec_bytes()),
            },
    {
        let mut i: usize = 0;
        while i < self.names.len()
            invariant
                i <= self.names@.len(),
                forall|k: int| 0 <= k < i ==> (#[trigger] self.names@[k])@ != string.spec_bytes(),
            decreases self.names@.len() - i,
        {
            if self.names[i].borrow().has_text(string) {
                return Some(i);
            }
            i = i + 1;
        }
        proof {
            assert forall|k: int| 0 <= k < keys(self.names@).len() implies keys(self.names@)[k]
                != string.spec_bytes() by {
                assert(keys(self.names@)[k] == self.names@[k]@);
            }
        }
        None
    }

    /// The slot that holds the path made of `path`, if one does.
    fn find_name_path(&self, path: &[NameModelHandle]) -> (r: Option<usize>)
        ensures
            match r {
                Some(i) => i < self.name_paths@.len() && self.name_paths@[i as int]@ == name_keys(
                    path@,
                ),
                None => !keys(self.name_paths@).contains(name_keys(path@)),
            },
    {
        let mut i: usize = 0;
        while i < self.name_paths.len()
            invariant
                i <= self.name_paths@.len(),
                forall|k: int| 0 <= k < i ==> (#[trigger] self.name_paths@[k])@ != name_keys(path@),
            decreases self.name_paths@.len() - i,
        {
            if self.name_paths[i].borrow().has_names(path) {
                return Some(i);
            }
            i = i + 1;
        }
        proof {
            assert forall|k: int| 0 <= k < keys(self.name_paths@).len() implies keys(
                self.name_paths@,
            )[k] != name_keys(path@) by {
                assert(keys(self.name_paths@)[k] == self.name_paths@[k]@);
            }
        }
        None
    }

    /// The slot that holds the type `model`, if one does.
    fn find_type(&self, model: &TypeModel) -> (r: Option<usize>)
        ensures
            match r {
                Some(i) => i < self.type_models@.len() && self.type_models@[i as int]@
                    == model.key(),
                None => !keys(self.type_models@).contains(model.key()),
            },
    {
        let mut i: usize = 0;
        while i < self.type_models.len()
            invariant
                i <= self.type_models@.len(),
                forall|k: int| 0 <= k < i ==> (#[trigger] self.type_models@[k])@ != model.key(),
            decreases self.type_models@.len() - i,
        {
            if self.type_models[i].borrow().same(model) {
                return Some(i);
            }
            i = i + 1;
        }
        proof {
            assert forall|k: int| 0 <= k < keys(self.type_models@).len() implies keys(
                self.type_models@,
            )[k] != model.key() by {
                assert(keys(self.type_models@)[k] == self.type_models@[k]@);
            }
        }
        None
    }

    /// The handle to the string of text `string`: the one that the space
    /// holds already, or a new one, which the space then holds.
    pub fn intern_string(&mut self, string: &str) -> (h: StringModelHandle)
        requires
            old(self)@.well_formed(),
        ensures
            final(self)@ == old(self)@.intern_string(string.spec_bytes()),
            final(self)@.well_formed(),
            interns(old(self).string_handles(), string.spec_bytes(), final(self).string_handles(), h),
    {
        proof {
            lemma_interned(self@.strings, string.spec_bytes());
        }
        match self.find_string(string) {
            Some(i) => {
                proof {
                    assert(keys(self.strings@)[i as int] == self.strings@[i as int]@);
                    lemma_slot(self.strings@, i as int);
                    assert(self.strings@.contains(self.strings@[i as int]));
                }
                self.strings[i].clone()
            },
            None => {
                let handle = ModelHandle::new(StringModel::new(string.to_owned()));
                self.strings.push(handle.clone());
                proof {
                    assert(keys(self.strings@) =~= keys(old(self).strings@).push(handle@));
                    lemma_slot(self.strings@, self.strings@.len() - 1);
                    assert(self.strings@[self.strings@.len() - 1] == handle);
                }
                handle
            },
        }
    }

    /// The handle to the name of text `string`: the one that the space
    /// holds already, or a new one, which the space then holds. Names are
    /// interned apart from strings.
    pub fn intern_name(&mut self, string: &str) -> (h: NameModelHandle)
        requires
            old(self)@.well_formed(),
        ensures
            final(self)@ == old(self)@.intern_name(string.spec_bytes()),
            final(self)@.well_formed(),
            interns(old(self).name_handles(), string.spec_bytes(), final(self).name_handles(), h),
    {
        proof {
            lemma_interned(self@.names, string.spec_bytes());
        }
        match self.find_name(string) {
            Some(i) => {
                proof {
                    assert(keys(self.names@)[i as int] == self.names@[i as int]@);
                    lemma_slot(self.names@, i as int);
                    assert(self.names@.contains(self.names@[i as int]));
                }
                self.names[i].clone()
            },
            None => {
                let handle = ModelHandle::new(NameModel::new(string.to_owned()));
                self.names.push(handle.clone());
                proof {
                    assert(keys(self.names@) =~= keys(old(self).names@).push(handle@));
                    lemma_slot(self.names@, self.names@.len() - 1);
                    assert(self.names@[self.names@.len() - 1] == handle);
                }
                handle
            },
        }
    }

    /// The handle to the path made of the names `path`: the one that the
    /// space holds already, or a new one, which the space then holds.
    pub fn intern_name_path(&mut self, path: Vec<NameModelHandle>) -> (h: NamePathModelHandle)
        requires
            old(self)@.well_formed(),
        ensures
            final(self)@ == old(self)@.intern_name_path(name_keys(path@)),
            final(self)@.well_formed(),
            interns(old(self).name_path_handles(), name_keys(path@), final(self).name_path_handles(), h),
    {
        proof {
            lemma_interned(self@.name_paths, name_keys(path@));
        }
        match self.find_name_path(path.as_slice()) {
            Some(i) => {
                proof {
                    assert(keys(self.name_paths@)[i as int] == self.name_paths@[i as int]@);
                    lemma_slot(self.name_paths@, i as int);
                    assert(self.name_paths@.contains(self.name_paths@[i as int]));
                }
                self.name_paths[i].clone()
            },
            None => {
                let handle = ModelHandle::new(NamePathModel::new(path));
                self.name_paths.push(handle.clone());
                proof {
                    assert(keys(self.name_paths@) =~= keys(old(self).name_paths@).push(handle@));
                    lemma_slot(self.name_paths@, self.name_paths@.len() - 1);
                    assert(self.name_paths@[self.name_paths@.len() - 1] == handle);
                }
                handle
            },
        }
    }

    /// The handle to the type `model`: the one that the space holds
    /// already for a type of the same key, or a new one, which the space
    /// then holds.
    pub fn intern_type(&mut self, model: TypeModel) -> (h: TypeModelHandle)
        requires
            old(self)@.well_formed(),
        ensures
            final(self)@ == old(self)@.intern_type(model.key()),
            final(self)@.well_formed(),
            interns(old(self).type_handles(), model.key(), final(self).type_handles(), h),
            !old(self)@.type_models.contains(model.key()) ==> h.model() == model,
    {
        proof {
            lemma_interned(self@.type_models, model.key());
        }
        match self.find_type(&model) {
            Some(i) => {
                proof {
                    assert(keys(self.type_models@)[i as int] == self.type_models@[i as int]@);
                    lemma_slot(self.type_models@, i as int);
                    assert(self.type_models@.contains(self.type_models@[i as int]));
                }
                self.type_models[i].clone()
            },
            None => {
                let handle = ModelHandle::new(model);
                self.type_models.push(handle.clone());
                proof {
                    assert(keys(self.type_models@) =~= keys(old(self).type_models@).push(handle@));
                    lemma_slot(self.type_models@, self.type_models@.len() - 1);
                    assert(self.type_models@[self.type_models@.len() - 1] == handle);
                }
                handle
            },
        }
    }

    /// True when a shader file is registered under `path`.
    pub fn has_shader_file_model(&self, path: &str) -> (r: bool)
        ensures
            r == self@.has_shader_file(path.spec_bytes()),
    {
        let mut i: usize = 0;
        while i < self.shader_file_models_by_path.len()
            invariant
                i <= self.shader_file_models_by_path@.len(),
                forall|k: int|
                    0 <= k < i ==> (#[trigger] self.shader_file_models_by_path@[k])@
                        != path.spec_bytes(),
            decreases self.shader_file_models_by_path@.len() - i,
        {
            if self.shader_file_models_by_path[i].borrow().path.borrow().has_text(path) {
                proof {
                    assert(keys(self.shader_file_models_by_path@)[i as int]
                        == self.shader_file_models_by_path@[i as int]@);
                }
                return true;
            }
            i = i + 1;
        }
        proof {
            assert forall|k: int|
                0 <= k < keys(self.shader_file_models_by_path@).len() implies keys(
                self.shader_file_models_by_path@,
            )[k] != path.spec_bytes() by {
                assert(keys(self.shader_file_models_by_path@)[k]
                    == self.shader_file_models_by_path@[k]@);
            }
        }
        false
    }

    /// Registers the shader file `model` under its path, and gives the
    /// handle to it. No shader file may be registered under that path
    /// yet: test with `has_shader_file_model`.
    pub fn add_shader_file_model(&mut self, model: ShaderFileModel) -> (h: ShaderFileModelHandle)
        requires
            old(self)@.well_formed(),
            !old(self)@.has_shader_file(model.key()),
        ensures
            final(self)@ == old(self)@.add_shader_file(model.key()),
            final(self)@.well_formed(),
            final(self)@.has_shader_file(model.key()),
            h.model() == model,
    {
        let handle = ModelHandle::new(model);
        self.shader_file_models_by_path.push(handle.clone());
        proof {
            let before = old(self)@.shader_files;
            let after = self@.shader_files;
            assert(after =~= before.push(handle@));
            assert(after[before.len() as int] == handle@);
            assert forall|i: int, j: int|
                0 <= i < after.len() && 0 <= j < after.len() && i != j implies after[i]
                != after[j] by {
                if i < before.len() && j < before.len() {
                    assert(before[i] != before[j]);
                } else if i < before.len() {
                    assert(before.contains(before[i]));
                } else {
                    assert(before.contains(before[j]));
                }
            }
        }
        handle
    }
}

/// What a space held it holds still, after anything has been interned:
/// nothing ever leaves it.
pub proof fn lemma_held_stays<T>(before: Seq<T>, after: Seq<T>, h: T)
    requires
        before.contains(h),
        before.len() <= after.len(),
        forall|i: int| 0 <= i < before.len() ==> after[i] == before[i],
    ensures
        after.contains(h),
{
    let i = choose|i: int| 0 <= i < before.len() && before[i] == h;
    assert(after[i] == h);
}

/// In a set without duplicates, the slot of the key of a handle is the
/// slot in which the handle stands.
pub proof fn lemma_slot<M: Model>(set: Seq<ModelHandle<M>>, i: int)
    requires
        keys(set).no_duplicates(),
        0 <= i < set.len(),
    ensures
        slot_of(keys(set), set[i]@) == i,
{
    assert(keys(set)[i] == set[i]@);
    let j = slot_of(keys(set), set[i]@);
    assert(0 <= j < keys(set).len() && keys(set)[j] == set[i]@);
}

} // verus!
