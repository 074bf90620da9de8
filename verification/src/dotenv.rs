//! The `.env` file: one `key=value` binding per line.

use vstd::prelude::*;

use crate::text::{chars_of, pairs, run_len, scan, string_of, strip_bounds, trim, CharClass};

verus! {

pub const GET_DIRECTORY_FAILED: &'static str = "unabble to get current directory";

pub const NO_PARENT_DIRECTORY: &'static str = "unable to find parent directory";

pub const NO_ENV_FILE: &'static str = "unable to find env file in current or parent directory";

/// The map that a list of bindings stands for: a later binding of a key
/// takes the place of an earlier one.
pub open spec fn map_of(entries: Seq<(Seq<char>, Seq<char>)>) -> Map<Seq<char>, Seq<char>>
    decreases entries.len(),
{
    if entries.len() == 0 {
        Map::empty()
    } else {
        map_of(entries.drop_last()).insert(entries.last().0, entries.last().1)
    }
}

/// The binding that a line makes, if it makes one: a line with exactly one
/// `=` binds what stands before it to what stands after it, both without the
/// whitespace around them.
pub open spec fn line_binding(line: Seq<char>) -> Option<(Seq<char>, Seq<char>)> {
    let k = run_len(line, CharClass::Except('=')) as int;
    if k < line.len() && run_len(line.skip(k + 1), CharClass::Except('=')) == line.len() - k - 1 {
        Some((trim(line.take(k)), trim(line.skip(k + 1))))
    } else {
        None
    }
}

/// `acc` with the bindings that the lines of `content` make, taken in from
/// the first line to the last.
pub open spec fn env_of(content: Seq<char>, acc: Map<Seq<char>, Seq<char>>) -> Map<
    Seq<char>,
    Seq<char>,
>
    decreases content.len(),
{
    let n = run_len(content, CharClass::Except('\n')) as int;
    let next = match line_binding(content.take(n)) {
        Some(b) => acc.insert(b.0, b.1),
        None => acc,
    };
    if n >= content.len() {
        next
    } else {
        env_of(content.skip(n + 1), next)
    }
}

/// The variables of an environment file, by name.
#[derive(Debug)]
pub struct EnvMap {
    entries: Vec<(String, String)>,
}

impl View for EnvMap {
    type V = Map<Seq<char>, Seq<char>>;

    closed spec fn view(&self) -> Map<Seq<char>, Seq<char>> {
        map_of(pairs(self.entries@))
    }
}

impl EnvMap {
    /// The map without any variable.
    pub fn new() -> (m: EnvMap)
        ensures
            m@ == Map::<Seq<char>, Seq<char>>::empty(),
    {
        let m = EnvMap { entries: Vec::new() };
        assert(pairs(m.entries@) =~= Seq::empty());
        m
    }

    /// Binds `key` to `value`, in place of what it was bound to.
    pub fn insert(&mut self, key: String, value: String)
        ensures
            final(self)@ == old(self)@.insert(key@, value@),
    {
        self.entries.push((key, value));
        proof {
            let all = pairs(self.entries@);
            assert(all.drop_last() =~= pairs(old(self).entries@));
            assert(all.last() == (key@, value@));
        }
    }

    /// The value that `key` is bound to, if it is bound.
    pub fn get(&self, key: &str) -> (r: Option<String>)
        ensures
            r is Some <==> self@.dom().contains(key@),
            r is Some ==> r->0@ == self@[key@],
    {
        let wanted = chars_of(key);
        let mut i: usize = self.entries.len();
        assert(self.entries@.take(i as int) =~= self.entries@);
        while i > 0
            invariant
                i <= self.entries.len(),
                wanted@ == key@,
                map_of(pairs(self.entries@)).dom().contains(key@) == map_of(
                    pairs(self.entries@.take(i as int)),
                ).dom().contains(key@),
                map_of(pairs(self.entries@.take(i as int))).dom().contains(key@) ==> map_of(
                    pairs(self.entries@),
                )[key@] == map_of(pairs(self.entries@.take(i as int)))[key@],
            decreases i,
        {
            proof {
                let head = pairs(self.entries@.take(i as int));
                assert(head.drop_last() =~= pairs(self.entries@.take(i - 1)));
                assert(head.last() == (self.entries@[i - 1].0@, self.entries@[i - 1].1@));
            }
            let name = chars_of(self.entries[i - 1].0.as_str());
            if crate::text::slice_is(&name, 0, name.len(), &wanted) {
                assert(name@.subrange(0, name@.len() as int) =~= name@);
                return Some(self.entries[i - 1].1.clone());
            }
            assert(name@.subrange(0, name@.len() as int) =~= name@);
            i -= 1;
        }
        assert(pairs(self.entries@.take(0)) =~= Seq::empty());
        None
    }
}

/// The binding that the line `v[from..to]` makes, if it makes one.
fn binding_in(v: &Vec<char>, from: usize, to: usize) -> (r: Option<(String, String)>)
    requires
        from <= to <= v.len(),
    ensures
        match line_binding(v@.subrange(from as int, to as int)) {
            Some(b) => r matches Some(found) && found.0@ == b.0 && found.1@ == b.1,
            None => r is None,
        },
{
    let ghost line = v@.subrange(from as int, to as int);
    let k = scan(v, from, to, CharClass::Except('='));
    if k >= to {
        return None;
    }
    let end = scan(v, k + 1, to, CharClass::Except('='));
    proof {
        assert(line.skip(k - from + 1) =~= v@.subrange(k + 1, to as int));
        assert(line.take(k - from) =~= v@.subrange(from as int, k as int));
    }
    if end < to {
        return None;
    }
    let (a, b) = strip_bounds(v, from, k, CharClass::Whitespace);
    let (c, d) = strip_bounds(v, k + 1, to, CharClass::Whitespace);
    Some((string_of(v, a, b), string_of(v, c, d)))
}

/// The variables that an environment file with this content binds. A line
/// binds a variable where it holds exactly one `=`; every other line is
/// passed over. Where a name is bound twice, the later line counts.
pub fn parse_dotenv_file(content: &str) -> (env: EnvMap)
    ensures
        env@ == env_of(content@, Map::empty()),
{
    let v = chars_of(content);
    let mut env = EnvMap::new();
    let mut pos: usize = 0;
    assert(v@.skip(0) =~= v@);
    loop
        invariant
            pos <= v.len(),
            v@ == content@,
            env_of(content@, Map::empty()) == env_of(v@.skip(pos as int), env@),
        decreases v.len() - pos,
    {
        let end = scan(&v, pos, v.len(), CharClass::Except('\n'));
        let ghost before = env@;
        proof {
            let rest = v@.skip(pos as int);
            assert(rest =~= v@.subrange(pos as int, v.len() as int));
            assert(rest.take(end - pos) =~= v@.subrange(pos as int, end as int));
            assert(end < v.len() ==> rest.skip(end - pos + 1) =~= v@.skip(end + 1));
            assert(run_len(rest, CharClass::Except('\n')) == end - pos);
        }
        match binding_in(&v, pos, end) {
            Some((key, value)) => {
                env.insert(key, value);
            },
            None => {},
        }
        proof {
            let rest = v@.skip(pos as int);
            assert(env_of(rest, before) == (if end - pos >= rest.len() {
                env@
            } else {
                env_of(rest.skip(end - pos + 1), env@)
            }));
        }
        if end >= v.len() {
            return env;
        }
        pos = end + 1;
    }
}

/// The variables of the environment file, where it was found and read:
/// `file` holds its content, or the reason why there is none.
pub fn dotenv(file: Result<String, String>) -> (r: Result<EnvMap, String>)
    ensures
        match file {
            Ok(content) => r is Ok && r->Ok_0@ == env_of(content@, Map::empty()),
            Err(reason) => r == Err::<EnvMap, String>(reason),
        },
{
    match file {
        Ok(content) => Ok(parse_dotenv_file(content.as_str())),
        Err(reason) => Err(reason),
    }
}

} // verus!
