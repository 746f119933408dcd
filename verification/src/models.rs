//! Model handles and the registry that owns them.
//!
//! Each model family shares one capability surface; the registry maps a
//! model identifier to its handle.  The network calls the handles stand for
//! live at the application edge — the registry itself is pure, in-memory
//! bookkeeping and never blocks.

use vstd::prelude::*;

verus! {

use crate::config::ModelConfig;
use crate::text::str_eq;

/// A handle on a DeepSeek-family model.
#[derive(Clone, Debug)]
pub struct DeepSeekModel {
    pub model_name: String,
}

impl DeepSeekModel {
    /// Create a handle with the given backend model name.
    pub fn new(model_name: &str) -> (r: DeepSeekModel)
        ensures
            r.model_name@ == model_name@,
    {
        DeepSeekModel { model_name: model_name.to_owned() }
    }

    /// The backend model name.
    pub fn name(&self) -> (r: &str)
        ensures
            r@ == self.model_name@,
    {
        self.model_name.as_str()
    }

    /// Lightweight health check; this family reports healthy.
    pub fn healthcheck(&self) -> (r: bool)
        ensures
            r,
    {
        true
    }

    /// An exact copy of the handle.
    pub fn duplicate(&self) -> (r: DeepSeekModel)
        ensures
            r == *self,
    {
        DeepSeekModel { model_name: self.model_name.clone() }
    }
}

/// A handle on a Qwen math-family model.
#[derive(Clone, Debug)]
pub struct QwenMathModel {
    pub model_name: String,
}

impl QwenMathModel {
    /// Create a handle with the given backend model name.
    pub fn new(model_name: &str) -> (r: QwenMathModel)
        ensures
            r.model_name@ == model_name@,
    {
        QwenMathModel { model_name: model_name.to_owned() }
    }

    /// The backend model name.
    pub fn name(&self) -> (r: &str)
        ensures
            r@ == self.model_name@,
    {
        self.model_name.as_str()
    }

    /// Lightweight health check; this family reports healthy.
    pub fn healthcheck(&self) -> (r: bool)
        ensures
            r,
    {
        true
    }

    /// An exact copy of the handle.
    pub fn duplicate(&self) -> (r: QwenMathModel)
        ensures
            r == *self,
    {
        QwenMathModel { model_name: self.model_name.clone() }
    }
}

/// A handle on a Qwen instruct-family model.
#[derive(Clone, Debug)]
pub struct QwenInstructModel {
    pub model_name: String,
}

impl QwenInstructModel {
    /// Create a handle with the given backend model name.
    pub fn new(model_name: &str) -> (r: QwenInstructModel)
        ensures
            r.model_name@ == model_name@,
    {
        QwenInstructModel { model_name: model_name.to_owned() }
    }

    /// The backend model name.
    pub fn name(&self) -> (r: &str)
        ensures
            r@ == self.model_name@,
    {
        self.model_name.as_str()
    }

    /// Lightweight health check; this family reports healthy.
    pub fn healthcheck(&self) -> (r: bool)
        ensures
            r,
    {
        true
    }

    /// An exact copy of the handle.
    pub fn duplicate(&self) -> (r: QwenInstructModel)
        ensures
            r == *self,
    {
        QwenInstructModel { model_name: self.model_name.clone() }
    }
}

/// Unified model wrapper: one variant per model family, one capability
/// surface.  Callers never match on the family.
#[derive(Clone, Debug)]
pub enum LocalModel {
    DeepSeek(DeepSeekModel),
    QwenMath(QwenMathModel),
    QwenInstruct(QwenInstructModel),
}

impl LocalModel {
    /// The backend model name, whatever the family.
    pub open spec fn spec_name(&self) -> Seq<char> {
        match self {
            LocalModel::DeepSeek(m) => m.model_name@,
            LocalModel::QwenMath(m) => m.model_name@,
            LocalModel::QwenInstruct(m) => m.model_name@,
        }
    }

    /// The backend model name.
    pub fn name(&self) -> (r: &str)
        ensures
            r@ == self.spec_name(),
    {
        match self {
            LocalModel::DeepSeek(m) => m.name(),
            LocalModel::QwenMath(m) => m.name(),
            LocalModel::QwenInstruct(m) => m.name(),
        }
    }

    /// Lightweight health check, delegated to the family.
    pub fn healthcheck(&self) -> (r: bool)
        ensures
            r,
    {
        match self {
            LocalModel::DeepSeek(m) => m.healthcheck(),
            LocalModel::QwenMath(m) => m.healthcheck(),
            LocalModel::QwenInstruct(m) => m.healthcheck(),
        }
    }

    /// An exact copy of the handle.
    pub fn duplicate(&self) -> (r: LocalModel)
        ensures
            r == *self,
    {
        match self {
            LocalModel::DeepSeek(m) => LocalModel::DeepSeek(m.duplicate()),
            LocalModel::QwenMath(m) => LocalModel::QwenMath(m.duplicate()),
            LocalModel::QwenInstruct(m) => LocalModel::QwenInstruct(m.duplicate()),
        }
    }
}

/// The first registered handle under a name, if any.
pub open spec fn spec_reg_lookup(s: Seq<(String, LocalModel)>, name: Seq<char>) -> Option<
    LocalModel,
>
    decreases s.len(),
{
    if s.len() == 0 {
        None
    } else if s[0].0@ == name {
        Some(s[0].1)
    } else {
        spec_reg_lookup(s.drop_first(), name)
    }
}

/// Whether a name is registered.
pub open spec fn spec_reg_contains(s: Seq<(String, LocalModel)>, name: Seq<char>) -> bool {
    spec_reg_lookup(s, name) is Some
}

/// Whether each name is registered at most once.
pub open spec fn spec_reg_keys_unique(s: Seq<(String, LocalModel)>) -> bool {
    forall|i: int, j: int| 0 <= i < j < s.len() ==> s[i].0@ != s[j].0@
}

/// A failed lookup means no entry carries the name.
proof fn lemma_reg_lookup_none_means_absent(s: Seq<(String, LocalModel)>, name: Seq<char>)
    requires
        spec_reg_lookup(s, name) is None,
    ensures
        forall|i: int| 0 <= i < s.len() ==> (#[trigger] s[i]).0@ != name,
    decreases s.len(),
{
    if s.len() > 0 {
        lemma_reg_lookup_none_means_absent(s.drop_first(), name);
        assert forall|i: int| 0 <= i < s.len() implies (#[trigger] s[i]).0@ != name by {
            if i > 0 {
                assert(s.drop_first()[i - 1] == s[i]);
            }
        }
    }
}

/// Appending an entry for a fresh name makes its lookup find exactly that
/// entry.
proof fn lemma_reg_lookup_push_new(s: Seq<(String, LocalModel)>, e: (String, LocalModel))
    requires
        spec_reg_lookup(s, e.0@) is None,
    ensures
        spec_reg_lookup(s.push(e), e.0@) == Some(e.1),
    decreases s.len(),
{
    let s2 = s.push(e);
    if s.len() == 0 {
        assert(s2[0] == e);
    } else {
        assert(s2[0] == s[0]);
        assert(s2.drop_first() =~= s.drop_first().push(e));
        lemma_reg_lookup_push_new(s.drop_first(), e);
    }
}

/// Appending an entry leaves every other name's lookup alone.
proof fn lemma_reg_lookup_push_frame(
    s: Seq<(String, LocalModel)>,
    e: (String, LocalModel),
    n: Seq<char>,
)
    requires
        n != e.0@,
    ensures
        spec_reg_lookup(s.push(e), n) == spec_reg_lookup(s, n),
    decreases s.len(),
{
    let s2 = s.push(e);
    if s.len() == 0 {
        assert(s2[0] == e);
        assert(s2[0].0@ != n);
        assert(s2.drop_first() =~= Seq::<(String, LocalModel)>::empty());
        assert(spec_reg_lookup(s2, n) == spec_reg_lookup(s2.drop_first(), n));
    } else {
        assert(s2[0] == s[0]);
        if s[0].0@ == n {
            assert(spec_reg_lookup(s2, n) == Some(s2[0].1));
        } else {
            assert(s2.drop_first() =~= s.drop_first().push(e));
            lemma_reg_lookup_push_frame(s.drop_first(), e, n);
            assert(spec_reg_lookup(s2, n) == spec_reg_lookup(s2.drop_first(), n));
            assert(spec_reg_lookup(s, n) == spec_reg_lookup(s.drop_first(), n));
        }
    }
}

/// Replacing the value at the first entry carrying a name makes its lookup
/// find the new value.
proof fn lemma_reg_lookup_update_found(
    s: Seq<(String, LocalModel)>,
    i: int,
    e: (String, LocalModel),
)
    requires
        0 <= i < s.len(),
        e.0@ == s[i].0@,
        forall|j: int| 0 <= j < i ==> (#[trigger] s[j]).0@ != e.0@,
    ensures
        spec_reg_lookup(s.update(i, e), e.0@) == Some(e.1),
    decreases i,
{
    let s2 = s.update(i, e);
    if i == 0 {
        assert(s2[0] == e);
    } else {
        assert(s2[0] == s[0]);
        assert(s2.drop_first() =~= s.drop_first().update(i - 1, e));
        assert(forall|j: int|
            0 <= j < i - 1 ==> (#[trigger] s.drop_first()[j]).0@ != e.0@ && s.drop_first()[j]
                == s[j + 1]);
        lemma_reg_lookup_update_found(s.drop_first(), i - 1, e);
    }
}

/// Replacing a value under one name leaves every other name's lookup alone.
proof fn lemma_reg_lookup_update_frame(
    s: Seq<(String, LocalModel)>,
    i: int,
    e: (String, LocalModel),
    n: Seq<char>,
)
    requires
        0 <= i < s.len(),
        e.0@ == s[i].0@,
        n != e.0@,
    ensures
        spec_reg_lookup(s.update(i, e), n) == spec_reg_lookup(s, n),
    decreases i,
{
    let s2 = s.update(i, e);
    if i == 0 {
        assert(s2[0].0@ == s[0].0@);
        assert(s2.drop_first() =~= s.drop_first());
    } else {
        assert(s2[0] == s[0]);
        assert(s2.drop_first() =~= s.drop_first().update(i - 1, e));
        lemma_reg_lookup_update_frame(s.drop_first(), i - 1, e, n);
    }
}

/// The model registry: identifiers mapped to handles, built once from the
/// configuration and passed by reference into every component.  Each name is
/// registered at most once, as a map would have it.
pub struct Registry {
    pub entries: Vec<(String, LocalModel)>,
}

impl Registry {
    /// Well-formedness: no name appears twice.
    pub open spec fn wf(&self) -> bool {
        spec_reg_keys_unique(self.entries@)
    }

    /// An empty registry.
    pub fn new() -> (r: Registry)
        ensures
            r.entries@ =~= Seq::<(String, LocalModel)>::empty(),
            r.wf(),
    {
        Registry { entries: Vec::new() }
    }

    /// The index of the first entry carrying a name, if any.
    fn find_index(&self, name: &str) -> (r: Option<usize>)
        ensures
            r matches Some(i) ==> i < self.entries@.len() && self.entries@[i as int].0@ == name@
                && (forall|j: int| 0 <= j < i ==> (#[trigger] self.entries@[j]).0@ != name@),
            r is None ==> spec_reg_lookup(self.entries@, name@) is None,
    {
        let n = self.entries.len();
        let mut i: usize = 0;
        assert(self.entries@.skip(0) =~= self.entries@);
        while i < n
            invariant
                n == self.entries@.len(),
                i <= n,
                spec_reg_lookup(self.entries@, name@) == spec_reg_lookup(
                    self.entries@.skip(i as int),
                    name@,
                ),
                forall|j: int| 0 <= j < i ==> (#[trigger] self.entries@[j]).0@ != name@,
            decreases n - i,
        {
            proof {
                assert(self.entries@.skip(i as int)[0] == self.entries@[i as int]);
                assert(self.entries@.skip(i as int).drop_first() =~= self.entries@.skip(
                    i as int + 1,
                ));
            }
            if str_eq(self.entries[i].0.as_str(), name) {
                return Some(i);
            }
            i = i + 1;
        }
        proof {
            assert(self.entries@.skip(n as int) =~= Seq::<(String, LocalModel)>::empty());
        }
        None
    }

    /// Register a handle under a name.  An already-registered name has its
    /// handle replaced, so each name stays registered at most once.
    pub fn register(&mut self, name: &str, model: LocalModel)
        ensures
            old(self).wf() ==> final(self).wf(),
            spec_reg_lookup(final(self).entries@, name@) == Some(model),
            forall|n: Seq<char>|
                n != name@ ==> spec_reg_lookup(final(self).entries@, n) == spec_reg_lookup(
                    old(self).entries@,
                    n,
                ),
            final(self).entries@.len() <= old(self).entries@.len() + 1,
    {
        match self.find_index(name) {
            Some(i) => {
                let ghost before = self.entries@;
                let (key, _replaced) = self.entries.remove(i);
                self.entries.insert(i, (key, model));
                proof {
                    let e = self.entries@[i as int];
                    assert(self.entries@ =~= before.update(i as int, e));
                    lemma_reg_lookup_update_found(before, i as int, e);
                    assert forall|n: Seq<char>| n != name@ implies spec_reg_lookup(
                        self.entries@,
                        n,
                    ) == spec_reg_lookup(before, n) by {
                        lemma_reg_lookup_update_frame(before, i as int, e, n);
                    }
                    assert(forall|j: int|
                        0 <= j < self.entries@.len() ==> (#[trigger] self.entries@[j]).0@
                            == before[j].0@);
                }
            },
            None => {
                let ghost before = self.entries@;
                self.entries.push((name.to_owned(), model));
                proof {
                    let e = self.entries@.last();
                    assert(self.entries@ =~= before.push(e));
                    lemma_reg_lookup_push_new(before, e);
                    assert forall|n: Seq<char>| n != name@ implies spec_reg_lookup(
                        self.entries@,
                        n,
                    ) == spec_reg_lookup(before, n) by {
                        lemma_reg_lookup_push_frame(before, e, n);
                    }
                    if spec_reg_keys_unique(before) {
                        lemma_reg_lookup_none_means_absent(before, name@);
                        assert forall|i: int, j: int|
                            0 <= i < j < self.entries@.len() implies self.entries@[i].0@
                            != self.entries@[j].0@ by {
                            if j < self.entries@.len() - 1 {
                                assert(self.entries@[i] == before[i] && self.entries@[j]
                                    == before[j]);
                            } else {
                                assert(self.entries@[i] == before[i]);
                            }
                        }
                    }
                }
            },
        }
    }
}

/// Build the registry from the configuration: each configured role is
/// registered with its family's handle, and the fixed aliases for the known
/// families are registered as well; a role that repeats an earlier name
/// replaces its handle, exactly as a map would.
pub fn build_registry(config: &ModelConfig) -> (r: Registry)
    ensures
        r.wf(),
        spec_reg_contains(r.entries@, config.proof_model@),
        spec_reg_contains(r.entries@, config.problem_model@),
        spec_reg_contains(r.entries@, config.general_model@),
        spec_reg_lookup(r.entries@, "deepseek-r1:7b"@) matches Some(h) && h matches
            LocalModel::DeepSeek(_) && h.spec_name() == "deepseek-r1:7b"@,
        spec_reg_lookup(r.entries@, "qwen2-math:7b"@) matches Some(h) && h matches
            LocalModel::QwenMath(_) && h.spec_name() == "qwen2-math:7b"@,
        spec_reg_lookup(r.entries@, "qwen2.5:7b-instruct"@) matches Some(h) && h matches
            LocalModel::QwenInstruct(_) && h.spec_name() == "qwen2.5:7b-instruct"@,
        r.entries@.len() <= 6,
{
    proof {
        reveal_strlit("deepseek-r1:7b");
        reveal_strlit("qwen2-math:7b");
        reveal_strlit("qwen2.5:7b-instruct");
    }
    let mut r = Registry::new();
    r.register(
        config.proof_model.as_str(),
        LocalModel::DeepSeek(DeepSeekModel::new("deepseek-r1:7b")),
    );
    r.register(
        config.problem_model.as_str(),
        LocalModel::QwenMath(QwenMathModel::new("qwen2-math:7b")),
    );
    r.register(
        config.general_model.as_str(),
        LocalModel::QwenInstruct(QwenInstructModel::new("qwen2.5:7b-instruct")),
    );
    r.register("deepseek-r1:7b", LocalModel::DeepSeek(DeepSeekModel::new("deepseek-r1:7b")));
    r.register("qwen2-math:7b", LocalModel::QwenMath(QwenMathModel::new("qwen2-math:7b")));
    r.register(
        "qwen2.5:7b-instruct",
        LocalModel::QwenInstruct(QwenInstructModel::new("qwen2.5:7b-instruct")),
    );
    proof {
        assert("deepseek-r1:7b"@.len() == 14);
        assert("qwen2-math:7b"@.len() == 13);
        assert("qwen2.5:7b-instruct"@.len() == 19);
        assert("deepseek-r1:7b"@ != "qwen2-math:7b"@);
        assert("deepseek-r1:7b"@ != "qwen2.5:7b-instruct"@);
        assert("qwen2-math:7b"@ != "qwen2.5:7b-instruct"@);
    }
    r
}

/// Look a model up by name.
pub fn get_model(registry: &Registry, name: &str) -> (r: Option<LocalModel>)
    ensures
        r == spec_reg_lookup(registry.entries@, name@),
{
    let n = registry.entries.len();
    let mut i: usize = 0;
    assert(registry.entries@.skip(0) =~= registry.entries@);
    while i < n
        invariant
            n == registry.entries@.len(),
            i <= n,
            spec_reg_lookup(registry.entries@, name@) == spec_reg_lookup(
                registry.entries@.skip(i as int),
                name@,
            ),
        decreases n - i,
    {
        proof {
            assert(registry.entries@.skip(i as int).drop_first() =~= registry.entries@.skip(
                i as int + 1,
            ));
            assert(registry.entries@.skip(i as int)[0] == registry.entries@[i as int]);
        }
        if str_eq(registry.entries[i].0.as_str(), name) {
            let m = registry.entries[i].1.duplicate();
            proof {
                assert(registry.entries@.skip(i as int)[0].1 == registry.entries@[i as int].1);
            }
            return Some(m);
        }
        i = i + 1;
    }
    proof {
        assert(registry.entries@.skip(n as int) =~= Seq::<(String, LocalModel)>::empty());
    }
    None
}

/// Whether the registry knows the model: the in-memory availability check.
pub fn model_exists_in_ollama(registry: &Registry, model: &str) -> (r: bool)
    ensures
        r == spec_reg_contains(registry.entries@, model@),
{
    match get_model(registry, model) {
        Some(_) => true,
        None => false,
    }
}

/// All registered model names, in registration order; free of duplicates
/// for a well-formed registry.
pub fn get_available_models(registry: &Registry) -> (r: Vec<String>)
    ensures
        r@.len() == registry.entries@.len(),
        forall|i: int| 0 <= i < r@.len() ==> r@[i]@ == registry.entries@[i].0@,
        registry.wf() ==> forall|i: int, j: int| 0 <= i < j < r@.len() ==> r@[i]@ != r@[j]@,
{
    let n = registry.entries.len();
    let mut out: Vec<String> = Vec::new();
    let mut i: usize = 0;
    while i < n
        invariant
            n == registry.entries@.len(),
            i <= n,
            out@.len() == i,
            forall|j: int| 0 <= j < i ==> out@[j]@ == registry.entries@[j].0@,
        decreases n - i,
    {
        out.push(registry.entries[i].0.clone());
        i = i + 1;
    }
    out
}

} // verus!
