//! Accumulators for the three outputs of a launch plan.

use vstd::prelude::*;
use vstd::string::*;
use crate::text::{views, str_views, lemma_views_push, lemma_views_empty};
use crate::context::{TmpFile, TmpFileModel, file_views, Pair};

verus! {

/// Collects the argument vector, in the order in which arguments are added.
pub struct ArgWriter {
    pub args: Vec<String>,
}

impl View for ArgWriter {
    type V = Seq<Seq<char>>;

    open spec fn view(&self) -> Seq<Seq<char>> {
        views(self.args@)
    }
}

impl ArgWriter {
    /// A writer without arguments.
    pub fn new() -> (w: ArgWriter)
        ensures
            w@ == Seq::<Seq<char>>::empty(),
    {
        proof {
            lemma_views_empty();
        }
        ArgWriter { args: Vec::new() }
    }

    /// Appends one argument.
    pub fn add(&mut self, arg: &str) -> (ret: &mut Self)
        ensures
            ret@ == old(self)@.push(arg@),
            *final(self) == *final(ret),
    {
        let s = String::from_str(arg);
        proof {
            lemma_views_push(self.args@, s);
        }
        self.args.push(s);
        self
    }

    /// Appends several arguments, keeping their order.
    pub fn add_many(&mut self, args: Vec<&str>) -> (ret: &mut Self)
        ensures
            ret@ == old(self)@ + str_views(args@),
            *final(self) == *final(ret),
    {
        let mut i: usize = 0;
        while i < args.len()
            invariant
                i <= args.len(),
                self@ == old(self)@ + str_views(args@.take(i as int)),
            decreases args.len() - i,
        {
            let s = String::from_str(args[i]);
            proof {
                lemma_views_push(self.args@, s);
                assert(str_views(args@.take(i + 1)) =~= str_views(args@.take(i as int)).push(
                    args@[i as int]@,
                ));
                assert(old(self)@ + str_views(args@.take(i as int)).push(args@[i as int]@) =~= (
                old(self)@ + str_views(args@.take(i as int))).push(args@[i as int]@));
            }
            self.args.push(s);
            i += 1;
        }
        proof {
            assert(args@.take(i as int) =~= args@);
        }
        self
    }

    /// The collected arguments.
    pub fn get_args(self) -> (args: Vec<String>)
        ensures
            views(args@) == self@,
    {
        self.args
    }
}

/// Collects the environment of the hypervisor process. No variable is
/// ever set twice.
pub struct EnvWriter {
    pub env: Vec<(String, String)>,
}

/// The variable names of a list of name and value pairs, in order.
pub open spec fn env_keys(env: Seq<(String, String)>) -> Seq<Seq<char>> {
    Seq::new(env.len(), |i: int| env[i].0@)
}

/// The name and value pairs as a map from names to values. Where a name
/// occurs more than once the last pair counts.
pub open spec fn env_map(env: Seq<(String, String)>) -> Map<Seq<char>, Seq<char>>
    decreases env.len(),
{
    if env.len() == 0 {
        Map::empty()
    } else {
        env_map(env.drop_last()).insert(env.last().0@, env.last().1@)
    }
}

/// The names of the map are the names of the list.
pub proof fn lemma_env_map_dom(env: Seq<(String, String)>)
    ensures
        forall|k: Seq<char>| env_map(env).dom().contains(k) <==> env_keys(env).contains(k),
    decreases env.len(),
{
    if env.len() > 0 {
        lemma_env_map_dom(env.drop_last());
        assert forall|k: Seq<char>| env_map(env).dom().contains(k) <==> env_keys(env).contains(
            k,
        ) by {
            if env_keys(env).contains(k) {
                let i = choose|i: int| 0 <= i < env.len() && env_keys(env)[i] == k;
                if i < env.len() - 1 {
                    assert(env_keys(env.drop_last())[i] == k);
                }
            }
            if env_keys(env.drop_last()).contains(k) {
                let i = choose|i: int|
                    0 <= i < env.len() - 1 && env_keys(env.drop_last())[i] == k;
                assert(env_keys(env)[i] == k);
            }
            if k == env.last().0@ {
                assert(env_keys(env)[env.len() - 1] == k);
            }
        }
    }
}

impl View for EnvWriter {
    type V = Map<Seq<char>, Seq<char>>;

    open spec fn view(&self) -> Map<Seq<char>, Seq<char>> {
        env_map(self.env@)
    }
}

impl EnvWriter {
    /// Every variable name occurs once.
    pub open spec fn wf(&self) -> bool {
        env_keys(self.env@).no_duplicates()
    }

    /// The variables in the order in which they were set.
    pub open spec fn pairs(&self) -> Seq<Pair> {
        views_of_pairs(self.env@)
    }

    /// A writer without variables.
    pub fn new() -> (w: EnvWriter)
        ensures
            w.wf(),
            w@ == Map::<Seq<char>, Seq<char>>::empty(),
            w.pairs() == Seq::<Pair>::empty(),
    {
        let w = EnvWriter { env: Vec::new() };
        assert(w.pairs() =~= Seq::<Pair>::empty());
        w
    }

    /// Whether the variable `key` has been set.
    pub fn contains_key(&self, key: &str) -> (r: bool)
        ensures
            r == self@.dom().contains(key@),
    {
        let probe = String::from_str(key);
        let mut i: usize = 0;
        while i < self.env.len()
            invariant
                i <= self.env.len(),
                probe@ == key@,
                forall|j: int| 0 <= j < i ==> env_keys(self.env@)[j] != key@,
            decreases self.env.len() - i,
        {
            if self.env[i].0 == probe {
                proof {
                    lemma_env_map_dom(self.env@);
                    assert(env_keys(self.env@)[i as int] == key@);
                    assert(env_keys(self.env@).contains(key@));
                    assert(env_map(self.env@).dom().contains(key@));
                }
                return true;
            }
            i += 1;
        }
        proof {
            lemma_env_map_dom(self.env@);
            assert(!env_keys(self.env@).contains(key@));
            assert(!env_map(self.env@).dom().contains(key@));
        }
        false
    }

    /// Sets the variable `key` to `value`. Setting a variable a second
    /// time is a mistake of the caller.
    pub fn add(&mut self, key: &str, value: &str) -> (ret: &mut Self)
        requires
            old(self).wf(),
            !old(self)@.dom().contains(key@),
        ensures
            ret.wf(),
            ret@ == old(self)@.insert(key@, value@),
            ret.pairs() == old(self).pairs().push((key@, value@)),
            *final(self) == *final(ret),
    {
        let k = String::from_str(key);
        let v = String::from_str(value);
        proof {
            lemma_env_map_dom(self.env@);
            let after = self.env@.push((k, v));
            assert(after.drop_last() =~= self.env@);
            assert(env_keys(after) =~= env_keys(self.env@).push(key@));
            assert(!env_keys(self.env@).contains(key@));
            assert forall|i: int, j: int|
                0 <= i < after.len() && 0 <= j < after.len() && i != j implies env_keys(after)[i]
                != env_keys(after)[j] by {
                if i < self.env@.len() && j < self.env@.len() {
                    assert(env_keys(self.env@)[i] != env_keys(self.env@)[j]);
                } else if i < self.env@.len() {
                    assert(env_keys(self.env@).contains(env_keys(self.env@)[i]));
                } else {
                    assert(env_keys(self.env@).contains(env_keys(self.env@)[j]));
                }
            }
            assert(views_of_pairs(after) =~= views_of_pairs(self.env@).push((key@, value@)));
        }
        self.env.push((k, v));
        self
    }

    /// The collected variables, in the order in which they were set.
    pub fn get_envs(self) -> (env: Vec<(String, String)>)
        ensures
            env == self.env,
            views_of_pairs(env@) == self.pairs(),
            env_map(env@) == self@,
    {
        self.env
    }
}

/// The contents of a list of name and value pairs.
pub open spec fn views_of_pairs(env: Seq<(String, String)>) -> Seq<Pair> {
    Seq::new(env.len(), |i: int| (env[i].0@, env[i].1@))
}

/// Collects the files that have to be created before the launch.
pub struct TmpFileWriter {
    pub files: Vec<TmpFile>,
}

impl View for TmpFileWriter {
    type V = Seq<TmpFileModel>;

    open spec fn view(&self) -> Seq<TmpFileModel> {
        file_views(self.files@)
    }
}

impl TmpFileWriter {
    /// A writer without files.
    pub fn new() -> (w: TmpFileWriter)
        ensures
            w@ == Seq::<TmpFileModel>::empty(),
    {
        let w = TmpFileWriter { files: Vec::new() };
        assert(w@ =~= Seq::<TmpFileModel>::empty());
        w
    }

    /// Records a request for the file `path` owned by `uid` and `gid`
    /// with the permission bits `mode`.
    pub fn add(&mut self, path: &str, uid: u32, gid: u32, mode: u32) -> (ret: &mut Self)
        ensures
            ret@ == old(self)@.push((TmpFileModel { path: path@, uid, gid, mode })),
            *final(self) == *final(ret),
    {
        let file = TmpFile { path: String::from_str(path), uid, gid, mode };
        proof {
            assert(file_views(self.files@.push(file)) =~= file_views(self.files@).push(file@));
        }
        self.files.push(file);
        self
    }

    /// The collected file requests.
    pub fn get_tmp_files(self) -> (files: Vec<TmpFile>)
        ensures
            file_views(files@) == self@,
    {
        self.files
    }
}

} // verus!
