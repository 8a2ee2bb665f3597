use vstd::prelude::*;
use crate::config::ModuleConfig;

verus! {

/// Index of the last `.` in `s`, or -1 when there is none.
pub open spec fn last_dot(s: Seq<char>) -> int
    decreases s.len(),
{
    if s.len() == 0 {
        -1
    } else if s.last() == '.' {
        s.len() - 1
    } else {
        last_dot(s.drop_last())
    }
}

/// The extension of a file name: what follows its last `.`, where that dot is
/// not the name's first character. `..` has none.
pub open spec fn extension_of(name: Seq<char>) -> Option<Seq<char>> {
    let k = last_dot(name);
    if name == seq!['.', '.'] || k <= 0 {
        None
    } else {
        Some(name.subrange(k + 1, name.len() as int))
    }
}

/// The text of each string.
pub open spec fn texts(v: Seq<String>) -> Seq<Seq<char>> {
    v.map_values(|s: String| s@)
}

/// The text of an optional string.
pub open spec fn opt_text(o: Option<String>) -> Option<Seq<char>> {
    match o {
        Some(s) => Some(s@),
        None => None,
    }
}

proof fn lemma_last_dot(s: Seq<char>, k: int)
    requires
        -1 <= k < s.len(),
        k >= 0 ==> s[k] == '.',
        forall|j: int| k < j < s.len() ==> s[j] != '.',
    ensures
        last_dot(s) == k,
    decreases s.len(),
{
    if s.len() > 0 && s.last() != '.' {
        assert(s.last() == s[s.len() - 1]);
        lemma_last_dot(s.drop_last(), k);
    }
}

/// The extension of a file name, as `Path::extension` finds it.
pub fn file_extension(name: &str) -> (r: Option<String>)
    ensures
        opt_text(r) == extension_of(name@),
{
    let n = name.unicode_len();
    let mut i: usize = n;
    while i > 0 && name.get_char(i - 1) != '.'
        invariant
            i <= n,
            n == name@.len(),
            forall|j: int| i <= j < n ==> name@[j] != '.',
        decreases i,
    {
        i = i - 1;
    }
    proof {
        lemma_last_dot(name@, i - 1);
    }
    if i <= 1 {
        return None;
    }
    if n == 2 && name.get_char(0) == '.' {
        assert(name@ =~= seq!['.', '.']);
        return None;
    }
    proof {
        if name@ == seq!['.', '.'] {
            assert(name@[0] == '.');
        }
    }
    Some(String::from_str(name.substring_char(i, n)))
}

/// One name of the directory listing, with its extension worked out once.
pub struct DirEntry {
    name: String,
    extension: Option<String>,
}

impl DirEntry {
    pub closed spec fn wf(&self) -> bool {
        opt_text(self.extension) == extension_of(self.name@)
    }
}

/// What is known of the directory being rendered: the names it holds, each
/// with its extension, and the configuration of the module being evaluated.
/// It is filled once and only read after that.
pub struct Context {
    entries: Vec<DirEntry>,
    config: ModuleConfig,
}

impl Context {
    /// The names in the directory.
    pub closed spec fn names(&self) -> Seq<Seq<char>> {
        self.entries@.map_values(|e: DirEntry| e.name@)
    }

    pub closed spec fn config_spec(&self) -> ModuleConfig {
        self.config
    }

    #[verifier::type_invariant]
    spec fn wf(&self) -> bool {
        forall|i: int| 0 <= i < self.entries@.len() ==> (#[trigger] self.entries@[i]).wf()
    }

    /// A context for a directory holding `names`, with the user's
    /// configuration for the module.
    pub fn new(names: Vec<String>, config: ModuleConfig) -> (r: Context)
        ensures
            r.names() == texts(names@),
            r.config_spec() == config,
    {
        let mut entries: Vec<DirEntry> = Vec::new();
        let mut i: usize = 0;
        while i < names.len()
            invariant
                i <= names@.len(),
                entries@.len() == i,
                forall|j: int| 0 <= j < i ==> (#[trigger] entries@[j]).wf(),
                forall|j: int| 0 <= j < i ==> (#[trigger] entries@[j]).name@ == names@[j]@,
            decreases names@.len() - i,
        {
            let name = names[i].clone();
            let extension = file_extension(name.as_str());
            entries.push(DirEntry { name, extension });
            i = i + 1;
        }
        let r = Context { entries, config };
        assert(r.names() =~= texts(names@));
        r
    }

    /// The user's configuration for the module.
    pub fn config(&self) -> (r: &ModuleConfig)
        ensures
            *r == self.config_spec(),
    {
        &self.config
    }

    /// Whether the directory holds a file named as one of `files`.
    pub fn has_any_file(&self, files: &Vec<String>) -> (r: bool)
        ensures
            r == exists|i: int|
                0 <= i < self.names().len() && texts(files@).contains(#[trigger] self.names()[i]),
    {
        let mut i: usize = 0;
        while i < self.entries.len()
            invariant
                i <= self.entries@.len(),
                forall|k: int| 0 <= k < i ==> !texts(files@).contains(#[trigger] self.names()[k]),
            decreases self.entries@.len() - i,
        {
            if contains_text(files, &self.entries[i].name) {
                assert(self.names()[i as int] == self.entries@[i as int].name@);
                return true;
            }
            assert(self.names()[i as int] == self.entries@[i as int].name@);
            i = i + 1;
        }
        false
    }

    /// Whether the directory holds a file with one of `extensions`.
    pub fn has_any_extension(&self, extensions: &Vec<String>) -> (r: bool)
        ensures
            r == exists|i: int|
                0 <= i < self.names().len() && has_extension_in(
                    #[trigger] self.names()[i],
                    texts(extensions@),
                ),
    {
        proof {
            use_type_invariant(self);
        }
        let mut i: usize = 0;
        while i < self.entries.len()
            invariant
                self.wf(),
                i <= self.entries@.len(),
                forall|k: int|
                    0 <= k < i ==> !has_extension_in(
                        #[trigger] self.names()[k],
                        texts(extensions@),
                    ),
            decreases self.entries@.len() - i,
        {
            assert(self.names()[i as int] == self.entries@[i as int].name@);
            assert(self.entries@[i as int].wf());
            match &self.entries[i].extension {
                Some(e) => {
                    if contains_text(extensions, e) {
                        return true;
                    }
                },
                None => {},
            }
            i = i + 1;
        }
        false
    }
}

/// Whether the extension of `name` is one of `extensions`.
pub open spec fn has_extension_in(name: Seq<char>, extensions: Seq<Seq<char>>) -> bool {
    match extension_of(name) {
        Some(e) => extensions.contains(e),
        None => false,
    }
}

/// Whether `v` holds a string with the text of `s`.
pub fn contains_text(v: &Vec<String>, s: &String) -> (r: bool)
    ensures
        r == texts(v@).contains(s@),
{
    let mut i: usize = 0;
    while i < v.len()
        invariant
            i <= v@.len(),
            forall|k: int| 0 <= k < i ==> v@[k]@ != s@,
        decreases v@.len() - i,
    {
        if v[i] == *s {
            assert(texts(v@)[i as int] == s@);
            return true;
        }
        i = i + 1;
    }
    assert(!texts(v@).contains(s@)) by {
        if texts(v@).contains(s@) {
            let k = choose|k: int| 0 <= k < texts(v@).len() && texts(v@)[k] == s@;
            assert(v@[k]@ == s@);
        }
    }
    false
}

} // verus!
