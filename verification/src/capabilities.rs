use vstd::prelude::*;
use vstd::string::*;

use crate::text::{before_line_feed, first_line_raw, trim, trim_view};

verus! {

broadcast use vstd::string::group_string_axioms;

/// Information about a detected binary.
#[derive(Debug)]
pub struct BinaryInfo {
    pub path: String,
    pub version: Option<String>,
}

/// Mathematical value of a [`BinaryInfo`].
pub struct BinaryInfoView {
    pub path: Seq<char>,
    pub version: Option<Seq<char>>,
}

impl View for BinaryInfo {
    type V = BinaryInfoView;

    open spec fn view(&self) -> BinaryInfoView {
        BinaryInfoView {
            path: self.path@,
            version: match self.version {
                Some(v) => Some(v@),
                None => None,
            },
        }
    }
}

pub open spec fn info_view(o: Option<BinaryInfo>) -> Option<BinaryInfoView> {
    match o {
        Some(i) => Some(i@),
        None => None,
    }
}

impl BinaryInfo {
    pub fn duplicate(&self) -> (r: BinaryInfo)
        ensures
            r@ == self@,
    {
        BinaryInfo {
            path: self.path.clone(),
            version: match &self.version {
                Some(v) => Some(v.clone()),
                None => None,
            },
        }
    }
}

/// What a command printed, and whether it exited successfully.
pub struct CommandOutput {
    pub success: bool,
    pub stdout: String,
    pub stderr: String,
}

/// The binary's path from the output of `which <name>`: the trimmed output,
/// or nothing when `which` could not run or did not succeed.
pub open spec fn probed_path(which: Option<(bool, Seq<char>)>) -> Option<Seq<char>> {
    match which {
        Some((true, out)) => Some(trim_view(out)),
        _ => None,
    }
}

/// A version string from the output of `<binary> --version`: the first
/// line of standard output (of standard error when standard output is
/// empty), trimmed; nothing when that line is empty or the command could
/// not run.
pub open spec fn probed_version(output: Option<(Seq<char>, Seq<char>)>) -> Option<Seq<char>> {
    match output {
        Some((stdout, stderr)) => {
            let text = if stdout.len() == 0 { stderr } else { stdout };
            let line = trim_view(before_line_feed(text));
            if line.len() == 0 {
                None
            } else {
                Some(line)
            }
        },
        None => None,
    }
}

/// The path of a binary from the outcome of `which <name>` (`None` when
/// `which` could not be run).
pub fn path_from_which(which: Option<CommandOutput>) -> (r: Option<String>)
    ensures
        r matches Some(p) ==> probed_path(match which { Some(o) => Some((o.success, o.stdout@)), None => None }) == Some(p@),
        r is None ==> probed_path(match which { Some(o) => Some((o.success, o.stdout@)), None => None }) is None,
{
    match which {
        Some(out) => {
            if out.success {
                Some(trim(out.stdout.as_str()))
            } else {
                None
            }
        },
        None => None,
    }
}

/// The version of a binary from the outcome of `<binary> --version` (`None`
/// when the command could not be run). Some tools print their version on
/// standard error, some on standard output.
pub fn version_from_output(output: Option<CommandOutput>) -> (r: Option<String>)
    ensures
        r matches Some(v) ==> probed_version(match output { Some(o) => Some((o.stdout@, o.stderr@)), None => None }) == Some(v@),
        r is None ==> probed_version(match output { Some(o) => Some((o.stdout@, o.stderr@)), None => None }) is None,
{
    match output {
        Some(out) => {
            let text: &str = if out.stdout.as_str().unicode_len() == 0 {
                out.stderr.as_str()
            } else {
                out.stdout.as_str()
            };
            let line = trim(first_line_raw(text));
            if line.as_str().unicode_len() == 0 {
                None
            } else {
                Some(line)
            }
        },
        None => None,
    }
}

/// Results of startup service detection: for each probed binary name, what
/// was found (nothing when the binary is not installed).
#[derive(Debug)]
pub struct ServiceCapabilities {
    binaries: Vec<(String, Option<BinaryInfo>)>,
}

impl View for ServiceCapabilities {
    type V = Map<Seq<char>, Option<BinaryInfoView>>;

    closed spec fn view(&self) -> Map<Seq<char>, Option<BinaryInfoView>> {
        Map::new(
            |k: Seq<char>| exists|i: int| 0 <= i < self.binaries@.len() && #[trigger] self.binaries@[i].0@ == k,
            |k: Seq<char>| info_view(self.binaries@[choose|i: int| 0 <= i < self.binaries@.len() && #[trigger] self.binaries@[i].0@ == k].1),
        )
    }
}

impl ServiceCapabilities {
    /// No binary name is recorded twice.
    pub closed spec fn wf(&self) -> bool {
        forall|i: int, j: int|
            0 <= i < j < self.binaries@.len() ==> #[trigger] self.binaries@[i].0@ != #[trigger] self.binaries@[j].0@
    }

    proof fn lemma_lookup(&self, i: int)
        requires
            self.wf(),
            0 <= i < self.binaries@.len(),
        ensures
            self@.contains_key(self.binaries@[i].0@),
            self@[self.binaries@[i].0@] == info_view(self.binaries@[i].1),
    {
        let k = self.binaries@[i].0@;
        assert(self@.contains_key(k));
        let c = choose|j: int| 0 <= j < self.binaries@.len() && #[trigger] self.binaries@[j].0@ == k;
        if c != i {
            if c < i {
                assert(self.binaries@[c].0@ != self.binaries@[i].0@);
            } else {
                assert(self.binaries@[i].0@ != self.binaries@[c].0@);
            }
        }
    }

    pub fn new() -> (c: Self)
        ensures
            c.wf(),
            c@ == Map::<Seq<char>, Option<BinaryInfoView>>::empty(),
    {
        let c = ServiceCapabilities { binaries: Vec::new() };
        assert(c@ =~= Map::<Seq<char>, Option<BinaryInfoView>>::empty());
        c
    }

    /// Position of the entry for `binary`, if there is one.
    fn find(&self, binary: &str) -> (r: Option<usize>)
        requires
            self.wf(),
        ensures
            r matches Some(i) ==> i < self.binaries@.len() && self.binaries@[i as int].0@ == binary@,
            r is None <==> !self@.contains_key(binary@),
    {
        let key = String::from_str(binary);
        let mut i: usize = 0;
        while i < self.binaries.len()
            invariant
                i <= self.binaries@.len(),
                key@ == binary@,
                forall|j: int| 0 <= j < i ==> self.binaries@[j].0@ != binary@,
            decreases self.binaries.len() - i,
        {
            if self.binaries[i].0 == key {
                return Some(i);
            }
            i = i + 1;
        }
        None
    }

    /// Record what was found for `binary`, replacing any previous record.
    pub fn insert(&mut self, binary: String, info: Option<BinaryInfo>)
        requires
            old(self).wf(),
        ensures
            final(self).wf(),
            final(self)@ == old(self)@.insert(binary@, info_view(info)),
    {
        let ghost info_v = info_view(info);
        let ghost key = binary@;
        match self.find(binary.as_str()) {
            Some(i) => {
                self.binaries.set(i, (binary, info));
                proof {
                    assert forall|a: int, b: int| 0 <= a < b < self.binaries@.len()
                        implies #[trigger] self.binaries@[a].0@ != #[trigger] self.binaries@[b].0@ by {
                        assert(old(self).binaries@[a].0@ != old(self).binaries@[b].0@);
                    }
                    assert forall|k: Seq<char>| #[trigger] self@.contains_key(k) <==> old(self)@.insert(key, info_v).contains_key(k) by {
                        if self@.contains_key(k) {
                            let j = choose|j: int| 0 <= j < self.binaries@.len() && #[trigger] self.binaries@[j].0@ == k;
                            if j != i as int {
                                assert(old(self).binaries@[j].0@ == k);
                            }
                        }
                        if old(self)@.contains_key(k) {
                            let j = choose|j: int| 0 <= j < old(self).binaries@.len() && #[trigger] old(self).binaries@[j].0@ == k;
                            if j != i as int {
                                assert(self.binaries@[j].0@ == k);
                            }
                        }
                    }
                    assert forall|k: Seq<char>| #[trigger] self@.contains_key(k) implies self@[k] == old(self)@.insert(key, info_v)[k] by {
                        let j = choose|j: int| 0 <= j < self.binaries@.len() && #[trigger] self.binaries@[j].0@ == k;
                        self.lemma_lookup(j);
                        if j != i as int {
                            old(self).lemma_lookup(j);
                        }
                    }
                    assert(self@ =~= old(self)@.insert(key, info_v));
                }
            },
            None => {
                let ghost n = self.binaries@.len();
                self.binaries.push((binary, info));
                proof {
                    assert forall|a: int, b: int| 0 <= a < b < self.binaries@.len()
                        implies #[trigger] self.binaries@[a].0@ != #[trigger] self.binaries@[b].0@ by {
                        if b == n {
                            if old(self).binaries@[a].0@ == key {
                                assert(old(self)@.contains_key(key));
                            }
                        } else {
                            assert(old(self).binaries@[a].0@ != old(self).binaries@[b].0@);
                        }
                    }
                    assert forall|k: Seq<char>| #[trigger] self@.contains_key(k) <==> old(self)@.insert(key, info_v).contains_key(k) by {
                        if self@.contains_key(k) {
                            let j = choose|j: int| 0 <= j < self.binaries@.len() && #[trigger] self.binaries@[j].0@ == k;
                            if j != n {
                                assert(old(self).binaries@[j].0@ == k);
                            }
                        }
                        if old(self)@.contains_key(k) {
                            let j = choose|j: int| 0 <= j < old(self).binaries@.len() && #[trigger] old(self).binaries@[j].0@ == k;
                            assert(self.binaries@[j].0@ == k);
                        }
                        if k == key {
                            assert(self.binaries@[n as int].0@ == k);
                        }
                    }
                    assert forall|k: Seq<char>| #[trigger] self@.contains_key(k) implies self@[k] == old(self)@.insert(key, info_v)[k] by {
                        let j = choose|j: int| 0 <= j < self.binaries@.len() && #[trigger] self.binaries@[j].0@ == k;
                        self.lemma_lookup(j);
                        if j != n {
                            old(self).lemma_lookup(j);
                        }
                    }
                    assert(self@ =~= old(self)@.insert(key, info_v));
                }
            },
        }
    }

    /// Whether `binary` was found on the system.
    pub fn is_available(&self, binary: &str) -> (r: bool)
        requires
            self.wf(),
        ensures
            r == (self@.contains_key(binary@) && self@[binary@] is Some),
    {
        match self.find(binary) {
            Some(i) => {
                proof { self.lemma_lookup(i as int); }
                self.binaries[i].1.is_some()
            },
            None => false,
        }
    }

    /// Where `binary` was found, if it was.
    pub fn binary_path(&self, binary: &str) -> (r: Option<&str>)
        requires
            self.wf(),
        ensures
            r is Some <==> (self@.contains_key(binary@) && self@[binary@] is Some),
            r matches Some(p) ==> p@ == self@[binary@]->0.path,
    {
        match self.find(binary) {
            Some(i) => {
                proof { self.lemma_lookup(i as int); }
                match &self.binaries[i].1 {
                    Some(info) => Some(info.path.as_str()),
                    None => None,
                }
            },
            None => None,
        }
    }
}

/// The binaries whose presence decides which services can run.
pub fn required_binaries() -> (r: Vec<&'static str>)
    ensures
        r@.len() == 2,
        r@[0]@ == "mosquitto"@,
        r@[1]@ == "mosquitto_passwd"@,
{
    let mut r: Vec<&'static str> = Vec::new();
    r.push("mosquitto");
    r.push("mosquitto_passwd");
    r
}

} // verus!
