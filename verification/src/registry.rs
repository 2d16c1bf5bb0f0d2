//! The task registry: the ordered collection of known task names, no name
//! twice, insertion order preserved. It is the only durable record that a
//! task exists; the multiplexer session and the branch are ephemeral. The
//! shell loads it from the registry file once at start and writes it back
//! at the end; both directions go through the verified codec.

use vstd::prelude::*;
use vstd::string::StringExecFns;

use crate::codec;

verus! {

/// The registry of known task names.
pub struct Database {
    tasks: Vec<String>,
}

impl View for Database {
    type V = Seq<Seq<char>>;

    closed spec fn view(&self) -> Seq<Seq<char>> {
        self.tasks.deep_view()
    }
}

/// How often a name occurs in a list of names.
pub open spec fn spec_count(names: Seq<Seq<char>>, name: Seq<char>) -> nat
    decreases names.len(),
{
    if names.len() == 0 {
        0
    } else {
        (if names[0] == name {
            1nat
        } else {
            0nat
        }) + spec_count(names.drop_first(), name)
    }
}

/// In a list without repeats, a name present occurs exactly once and a name
/// absent occurs not at all.
pub proof fn lemma_unique_count(names: Seq<Seq<char>>, name: Seq<char>)
    requires
        codec::unique_names(names),
    ensures
        names.contains(name) ==> spec_count(names, name) == 1,
        !names.contains(name) ==> spec_count(names, name) == 0,
    decreases names.len(),
{
    if names.len() == 0 {
        if names.contains(name) {
            let t = choose|t: int| 0 <= t < names.len() && names[t] == name;
            assert(false);
        }
    } else {
        let tail = names.drop_first();
        assert forall|a: int, b: int| 0 <= a < b < tail.len() implies tail[a] != tail[b] by {
            assert(tail[a] == names[a + 1]);
            assert(tail[b] == names[b + 1]);
        }
        lemma_unique_count(tail, name);
        if names[0] == name {
            assert(!tail.contains(name)) by {
                if tail.contains(name) {
                    let t = choose|t: int| 0 <= t < tail.len() && tail[t] == name;
                    assert(names[t + 1] == name);
                    assert(names[0] != names[t + 1]);
                }
            }
            assert(names.contains(name)) by {
                assert(names[0] == name);
            }
            assert(spec_count(names, name) == 1);
        } else {
            assert(names.contains(name) <==> tail.contains(name)) by {
                if names.contains(name) {
                    let t = choose|t: int| 0 <= t < names.len() && names[t] == name;
                    assert(t != 0);
                    assert(tail[t - 1] == name);
                }
                if tail.contains(name) {
                    let t = choose|t: int| 0 <= t < tail.len() && tail[t] == name;
                    assert(names[t + 1] == name);
                }
            }
        }
    }
}

/// Registering a name unknown to a registry without repeats leaves a
/// registry without repeats in which the name occurs exactly once.
pub proof fn lemma_create_registers_once(before: Seq<Seq<char>>, name: Seq<char>)
    requires
        codec::unique_names(before),
        !before.contains(name),
    ensures
        codec::unique_names(before.push(name)),
        spec_count(before.push(name), name) == 1,
{
    let after = before.push(name);
    assert forall|x: int| 0 <= x < before.len() implies before[x] != name by {
        if before[x] == name {
            assert(before.contains(name));
        }
    }
    assert forall|a: int, b: int| 0 <= a < b < after.len() implies after[a] != after[b] by {
        if b == before.len() {
            assert(after[a] == before[a]);
            assert(after[b] == name);
        } else {
            assert(after[a] == before[a]);
            assert(after[b] == before[b]);
        }
    }
    assert(after.contains(name)) by {
        assert(after[before.len() as int] == name);
    }
    lemma_unique_count(after, name);
}

impl Database {
    /// Usable names only, no name twice.
    pub open spec fn wf(&self) -> bool {
        codec::wf_names(self@)
    }

    /// An empty registry.
    pub fn new() -> (db: Database)
        ensures
            db@ =~= Seq::<Seq<char>>::empty(),
            db.wf(),
    {
        let db = Database { tasks: Vec::new() };
        proof {
            assert(db@ =~= Seq::<Seq<char>>::empty());
        }
        db
    }

    /// Whether a task of this name is registered.
    pub fn task_exists(&self, task_name: &str) -> (r: bool)
        ensures
            r == self@.contains(task_name@),
    {
        let name = String::from_str(task_name);
        codec::contains_name(&self.tasks, &name)
    }

    /// Registers a task name, at the end of the order. The caller has
    /// checked that the name is usable and not yet registered.
    pub fn add_task(&mut self, task_name: &str)
        requires
            old(self).wf(),
            codec::valid_task_name(task_name@),
            !old(self)@.contains(task_name@),
        ensures
            final(self).wf(),
            final(self)@ == old(self)@.push(task_name@),
            spec_count(final(self)@, task_name@) == 1,
    {
        let ghost before = self@;
        self.tasks.push(String::from_str(task_name));
        proof {
            assert(self@ =~= before.push(task_name@));
            lemma_create_registers_once(before, task_name@);
        }
    }

    /// Strikes a task name from the registry, keeping the order of the
    /// rest; a name not registered leaves the registry unchanged.
    pub fn remove_task(&mut self, task_name: &str)
        requires
            old(self).wf(),
        ensures
            final(self).wf(),
            !final(self)@.contains(task_name@),
            !old(self)@.contains(task_name@) ==> final(self)@ == old(self)@,
            old(self)@.contains(task_name@) ==> exists|x: int|
                0 <= x < old(self)@.len() && old(self)@[x] == task_name@ && final(self)@ == old(
                    self,
                )@.remove(x),
    {
        let ghost before = self@;
        let name = String::from_str(task_name);
        let n = self.tasks.len();
        let mut k: usize = 0;
        while k < n
            invariant
                k <= n,
                n == self.tasks.len(),
                *self == *old(self),
                self@ == before,
                codec::wf_names(before),
                name@ == task_name@,
                forall|t: int| 0 <= t < k ==> before[t] != task_name@,
            decreases n - k,
        {
            if self.tasks[k] == name {
                proof {
                    let e = self.tasks@[k as int];
                    assert(e@ == name@);
                    assert(name@ == task_name@);
                    assert(before[k as int] == e.deep_view());
                    assert(e.deep_view() == e@);
                    assert(before[k as int] == task_name@);
                    assert(before.contains(task_name@));
                }
                self.tasks.remove(k);
                proof {
                    assert(self@ =~= before.remove(k as int)) by {
                        assert(self.tasks@ == old(self).tasks@.remove(k as int));
                        assert forall|t: int| 0 <= t < self@.len() implies self@[t]
                            == before.remove(k as int)[t] by {
                            assert(self@[t] == self.tasks@[t].deep_view());
                            if t < k {
                                assert(self.tasks@[t] == old(self).tasks@[t]);
                                assert(before[t] == old(self).tasks@[t].deep_view());
                            } else {
                                assert(self.tasks@[t] == old(self).tasks@[t + 1]);
                                assert(before[t + 1] == old(self).tasks@[t + 1].deep_view());
                            }
                        }
                    }
                    let now = self@;
                    assert forall|t: int| 0 <= t < now.len() implies now[t] != task_name@ by {
                        if t < k {
                            assert(now[t] == before[t]);
                        } else {
                            assert(now[t] == before[t + 1]);
                            assert(before[k as int] == task_name@);
                            if before[t + 1] == task_name@ {
                                assert(before[k as int] == before[t + 1]);
                            }
                        }
                    }
                    if now.contains(task_name@) {
                        let t = choose|t: int| 0 <= t < now.len() && now[t] == task_name@;
                        assert(false);
                    }
                    assert forall|t: int| 0 <= t < now.len() implies codec::valid_task_name(
                        #[trigger] now[t],
                    ) by {
                        if t < k {
                            assert(now[t] == before[t]);
                        } else {
                            assert(now[t] == before[t + 1]);
                        }
                    }
                    assert forall|a: int, b: int| 0 <= a < b < now.len() implies now[a] != now[b]
                        by {
                        let a2: int = if a < k {
                            a
                        } else {
                            a + 1
                        };
                        let b2: int = if b < k {
                            b
                        } else {
                            b + 1
                        };
                        assert(now[a] == before[a2]);
                        assert(now[b] == before[b2]);
                        assert(a2 < b2);
                    }
                }
                return ;
            }
            k = k + 1;
        }
        proof {
            if self@.contains(task_name@) {
                let t = choose|t: int| 0 <= t < self@.len() && self@[t] == task_name@;
                assert(false);
            }
        }
    }

    /// The registered names, each prefixed for display.
    pub fn list_tasks(&self) -> (r: Vec<String>)
        ensures
            r.deep_view().len() == self@.len(),
            forall|t: int| 0 <= t < self@.len() ==> r.deep_view()[t] == "Task: "@ + self@[t],
    {
        let mut out: Vec<String> = Vec::new();
        proof {
            assert(out.deep_view() =~= Seq::<Seq<char>>::empty());
        }
        let n = self.tasks.len();
        let mut k: usize = 0;
        while k < n
            invariant
                k <= n,
                n == self.tasks.len(),
                out.deep_view().len() == k,
                forall|t: int| 0 <= t < k ==> out.deep_view()[t] == "Task: "@ + self@[t],
            decreases n - k,
        {
            let ghost out_before = out.deep_view();
            let mut line = String::from_str("Task: ");
            line.append(self.tasks[k].as_str());
            out.push(line);
            proof {
                assert(out.deep_view() =~= out_before.push("Task: "@ + self@[k as int]));
            }
            k = k + 1;
        }
        out
    }

    /// The registry file text for this registry.
    pub fn encode(&self) -> (r: String)
        ensures
            r@ == codec::spec_encode(self@),
    {
        codec::encode_names(&self.tasks)
    }

    /// Reads a registry back from registry file text; text that is not a
    /// well-formed registry file is refused.
    pub fn decode(s: &str) -> (r: Option<Database>)
        ensures
            match r {
                Some(db) => db.wf() && codec::spec_decode(s@) == Some(db@),
                None => codec::spec_decode(s@) is None,
            },
    {
        match codec::decode_names(s) {
            None => None,
            Some(v) => {
                proof {
                    reveal_strlit("tasks = [");
                    reveal_strlit("]\n");
                    if s@.len() == 11 {
                        assert(v.deep_view() =~= Seq::<Seq<char>>::empty());
                    } else {
                        codec::lemma_parse_items_wf(s@, 9, s@.len() - 2);
                    }
                }
                Some(Database { tasks: v })
            },
        }
    }
}

} // verus!
