use crate::error::{Error, ErrorInfo};
use crate::template::Template;
use crate::text::str_eq;
use vstd::prelude::*;

verus! {

/// The loaded templates, each under its name.
#[derive(Debug)]
pub struct Templates {
    names: Vec<String>,
    templates: Vec<Template>,
}

impl View for Templates {
    type V = Map<Seq<char>, Template>;

    /// The template that each name stands for.
    closed spec fn view(&self) -> Map<Seq<char>, Template> {
        Map::new(
            |k: Seq<char>| exists|i: int| 0 <= i < self.names@.len() && self.names@[i]@ == k,
            |k: Seq<char>| self.templates@[self.index_of(k)],
        )
    }
}

impl Templates {
    /// The position at which the name `k` is kept.
    closed spec fn index_of(&self, k: Seq<char>) -> int {
        choose|i: int| 0 <= i < self.names@.len() && self.names@[i]@ == k
    }

    /// Names and templates pair up, and no name is kept twice.
    #[verifier::type_invariant]
    closed spec fn well_formed(&self) -> bool {
        &&& self.names@.len() == self.templates@.len()
        &&& forall|i: int, j: int|
            0 <= i < self.names@.len() && 0 <= j < self.names@.len() && i != j
                ==> #[trigger] self.names@[i]@ != #[trigger] self.names@[j]@
    }

    /// The name `k` is kept at position `i`.
    proof fn lemma_at(&self, i: int)
        requires
            self.well_formed(),
            0 <= i < self.names@.len(),
        ensures
            self@.contains_key(self.names@[i]@),
            self@[self.names@[i]@] == self.templates@[i],
    {
        let k = self.names@[i]@;
        assert(exists|j: int| 0 <= j < self.names@.len() && self.names@[j]@ == k);
        let j = self.index_of(k);
        assert(i == j);
    }

    /// No templates.
    pub fn new() -> (r: Templates)
        ensures
            r@ == Map::<Seq<char>, Template>::empty(),
    {
        let r = Templates { names: Vec::new(), templates: Vec::new() };
        assert(r@ =~= Map::<Seq<char>, Template>::empty());
        r
    }

    /// The position of `name`, if it is kept.
    fn find(&self, name: &str) -> (r: Option<usize>)
        ensures
            match r {
                Some(i) => i < self.names@.len() && self.names@[i as int]@ == name@,
                None => !self@.contains_key(name@),
            },
    {
        proof {
            use_type_invariant(self);
        }
        let mut i: usize = 0;
        while i < self.names.len()
            invariant
                i <= self.names@.len(),
                forall|k: int| 0 <= k < i ==> self.names@[k]@ != name@,
            decreases self.names.len() - i,
        {
            if str_eq(self.names[i].as_str(), name) {
                return Some(i);
            }
            i = i + 1;
        }
        None
    }

    /// Keeps `template` under `name`, in place of any template kept under
    /// that name before.
    pub fn insert(&mut self, name: String, template: Template)
        ensures
            final(self)@ == old(self)@.insert(name@, template),
    {
        let found = self.find(name.as_str());
        let mut old_self = Templates::new();
        std::mem::swap(self, &mut old_self);
        proof {
            use_type_invariant(&old_self);
        }
        let ghost old_map = old_self@;
        let ghost k = name@;
        let Templates { names, mut templates } = old_self;
        match found {
            Some(i) => {
                templates.set(i, template);
                let new_self = Templates { names, templates };
                proof {
                    assert forall|key: Seq<char>| #[trigger]
                        new_self@.contains_key(key) == old_map.insert(k, template).contains_key(
                            key,
                        ) by {
                        if key == k {
                            new_self.lemma_at(i as int);
                        }
                    }
                    assert forall|key: Seq<char>| new_self@.contains_key(key) implies #[trigger] new_self@[key]
                        == old_map.insert(k, template)[key] by {
                        let j = new_self.index_of(key);
                        new_self.lemma_at(j);
                        if key != k {
                            assert(j != i);
                            assert(old_self.names@[j]@ == key);
                            old_self.lemma_at(j);
                        }
                    }
                    assert(new_self@ =~= old_map.insert(k, template));
                }
                *self = new_self;
            },
            None => {
                let mut names = names;
                let ghost n = names@.len();
                names.push(name);
                templates.push(template);
                let new_self = Templates { names, templates };
                proof {
                    assert forall|key: Seq<char>| #[trigger]
                        new_self@.contains_key(key) == old_map.insert(k, template).contains_key(
                            key,
                        ) by {
                        if key == k {
                            new_self.lemma_at(n as int);
                        } else if old_map.contains_key(key) {
                            let j = old_self.index_of(key);
                            new_self.lemma_at(j);
                        } else if new_self@.contains_key(key) {
                            let j = new_self.index_of(key);
                            assert(j < n);
                            old_self.lemma_at(j);
                        }
                    }
                    assert forall|key: Seq<char>| new_self@.contains_key(key) implies #[trigger] new_self@[key]
                        == old_map.insert(k, template)[key] by {
                        let j = new_self.index_of(key);
                        new_self.lemma_at(j);
                        if key != k {
                            assert(j < n);
                            old_self.lemma_at(j);
                        }
                    }
                    assert(new_self@ =~= old_map.insert(k, template));
                }
                *self = new_self;
            },
        }
    }

    /// The names of the kept templates, each once, in no promised order.
    pub fn template_names(&self) -> (r: Vec<String>)
        ensures
            forall|i: int| 0 <= i < r@.len() ==> self@.contains_key(#[trigger] r@[i]@),
            forall|k: Seq<char>|
                self@.contains_key(k) ==> exists|i: int| 0 <= i < r@.len() && #[trigger] r@[i]@ == k,
            forall|i: int, j: int|
                0 <= i < r@.len() && 0 <= j < r@.len() && i != j ==> #[trigger] r@[i]@ != #[trigger] r@[j]@,
    {
        proof {
            use_type_invariant(self);
        }
        let mut r: Vec<String> = Vec::new();
        let mut i: usize = 0;
        while i < self.names.len()
            invariant
                self.well_formed(),
                i <= self.names@.len(),
                r@.len() == i,
                forall|k: int| 0 <= k < i ==> #[trigger] r@[k]@ == self.names@[k]@,
            decreases self.names.len() - i,
        {
            r.push(self.names[i].clone());
            i = i + 1;
        }
        proof {
            assert forall|j: int| 0 <= j < r@.len() implies self@.contains_key(#[trigger] r@[j]@) by {
                self.lemma_at(j);
            }
            assert forall|k: Seq<char>| self@.contains_key(k) implies exists|j: int|
                0 <= j < r@.len() && #[trigger] r@[j]@ == k by {
                let j = self.index_of(k);
                assert(r@[j]@ == k);
            }
        }
        r
    }

    /// The template kept under `name`; an error that it cannot be found
    /// where no template is kept under that name.
    pub fn get(&self, name: &str) -> (r: Result<&Template, Error>)
        ensures
            match r {
                Ok(t) => self@.contains_key(name@) && *t == self@[name@],
                Err(e) => !self@.contains_key(name@) && is_not_found(e, "template"@),
            },
    {
        proof {
            use_type_invariant(self);
        }
        match self.find(name) {
            Some(i) => {
                proof {
                    self.lemma_at(i as int);
                }
                Ok(&self.templates[i])
            },
            None => Err(not_found("template")),
        }
    }
}

/// After `insert(name, t)`, looking up `name` gives `t`, and every other name
/// gives what it gave before.
pub proof fn lemma_get_after_insert(before: Templates, after: Templates, name: Seq<char>, t: Template, other: Seq<char>)
    requires
        after@ == before@.insert(name, t),
    ensures
        after@.contains_key(name),
        after@[name] == t,
        other != name ==> (after@.contains_key(other) == before@.contains_key(other)),
        other != name && before@.contains_key(other) ==> after@[other] == before@[other],
{
}

/// `e` says that `what` could not be found, with no further detail.
pub open spec fn is_not_found(e: Error, what: Seq<char>) -> bool {
    e matches Error::Find(info) && info.string@ == what && info.err@ == Seq::<char>::empty()
}

/// The error that `what` could not be found.
pub fn not_found(what: &str) -> (e: Error)
    ensures
        is_not_found(e, what@),
{
    Error::Find(ErrorInfo { string: String::from_str(what), err: String::new() })
}

/// The name of the template that a file of the templates directory holds:
/// for a file name that ends in the extension `json`, the file name without
/// it; `None` for any other file.
pub open spec fn template_file_stem(file_name: Seq<char>) -> Option<Seq<char>> {
    if exists|d: int| 0 < d < file_name.len() && file_name[d] == '.' && file_name.subrange(d + 1, file_name.len() as int) == seq!['j', 's', 'o', 'n'] {
        Some(file_name.subrange(0, file_name.len() - 5))
    } else {
        None
    }
}

/// The template name that the file `file_name` stands for (see `template_file_stem`).
pub fn template_name_for_file(file_name: &str) -> (r: Option<String>)
    ensures
        r matches Some(s) ==> template_file_stem(file_name@) == Some(s@),
        r is None ==> template_file_stem(file_name@) is None,
{
    let n = file_name.unicode_len();
    if n < 6 {
        proof {
            assert forall|d: int| 0 < d < file_name@.len() && file_name@[d] == '.' implies file_name@.subrange(d + 1, file_name@.len() as int) != seq!['j', 's', 'o', 'n'] by {
                assert(file_name@.subrange(d + 1, file_name@.len() as int).len() < 4);
            }
        }
        return None;
    }
    let ghost json: Seq<char> = seq!['j', 's', 'o', 'n'];
    proof {
        reveal_strlit(".json");
        assert(".json"@ =~= seq!['.'] + json);
    }
    if crate::text::ends_with(file_name, ".json") {
        proof {
            let d = n - 5;
            let tail = file_name@.subrange(n - 5, n as int);
            assert(tail == seq!['.'] + json);
            assert(file_name@[d] == tail[0]);
            assert(file_name@.subrange(d + 1, n as int) =~= tail.subrange(1, 5));
            assert(tail.subrange(1, 5) =~= json);
        }
        Some(String::from_str(file_name.substring_char(0, n - 5)))
    } else {
        proof {
            assert forall|d: int| 0 < d < file_name@.len() && file_name@[d] == '.' implies file_name@.subrange(d + 1, file_name@.len() as int) != seq!['j', 's', 'o', 'n'] by {
                let t = file_name@.subrange(d + 1, file_name@.len() as int);
                if t == json {
                    assert(t.len() == 4);
                    assert(d == n - 5);
                    assert(file_name@.subrange(n - 5, n as int) =~= seq!['.'] + t);
                }
            }
        }
        None
    }
}

} // verus!
