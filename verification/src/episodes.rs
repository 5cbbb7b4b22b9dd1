//! The installed episodes of the game and their data files.

use vstd::prelude::*;
use crate::data::{required_file_names, required_names};
use crate::text::{push_decimal, spec_decimal, string_from_chars};

verus! {

/// How many episode slots are probed for installed data.
pub const EPISODE_SLOTS: usize = 9;

/// The number that the installed-episodes probe reports: the highest slot
/// below `EPISODE_SLOTS` whose data files are all present (slots are
/// numbered like the file name extensions), or zero if there is none.
pub open spec fn spec_count_installed(installed: Seq<bool>) -> nat
    decreases installed.len(),
{
    if installed.len() == 0 {
        0
    } else {
        let last = (installed.len() - 1) as int;
        if last < EPISODE_SLOTS && installed[last] {
            last as nat
        } else {
            spec_count_installed(installed.drop_last())
        }
    }
}

/// The episodes of the game that are installed, and the one being played.
#[derive(Debug)]
pub struct Episodes {
    current: usize,
    count: usize,
}

impl View for Episodes {
    /// The current episode and the number of installed episodes.
    type V = (nat, nat);

    closed spec fn view(&self) -> (nat, nat) {
        (self.current as nat, self.count as nat)
    }
}

impl Episodes {
    #[verifier::type_invariant]
    spec fn inv(self) -> bool {
        self.current == 0 || self.current < self.count
    }

    /// The episode numbers whose data files are all present: `installed[i]`
    /// tells whether the files of slot `i` were found.
    pub fn count_installed(installed: &[bool]) -> (count: usize)
        ensures
            count == spec_count_installed(installed@),
    {
        let mut count: usize = 0;
        let mut i: usize = 0;
        while i < EPISODE_SLOTS && i < installed.len()
            invariant
                i <= EPISODE_SLOTS,
                i <= installed@.len(),
                count == spec_count_installed(installed@.subrange(0, i as int)),
            decreases EPISODE_SLOTS - i,
        {
            if installed[i] {
                count = i;
            }
            i = i + 1;
            assert(installed@.subrange(0, i as int).drop_last() =~= installed@.subrange(0, i - 1));
        }
        proof {
            lemma_count_installed_prefix(installed@, i as int);
        }
        count
    }

    /// The episodes found by the probe `installed`, starting with the first.
    pub fn find_installed(installed: &[bool]) -> (e: Self)
        ensures
            e@ == (0nat, spec_count_installed(installed@)),
    {
        let count = Self::count_installed(installed);
        Episodes { current: 0, count }
    }

    /// Moves on to the next episode, from the last one back to the first,
    /// and returns its number.
    pub fn switch(&mut self) -> (r: usize)
        requires
            old(self)@.1 > 0,
        ensures
            final(self)@ == (((old(self)@.0 + 1) % old(self)@.1) as nat, old(self)@.1),
            r == final(self)@.0,
    {
        proof {
            use_type_invariant(&*self);
        }
        self.current = (self.current + 1) % self.count;
        self.current
    }

    pub fn current(&self) -> (r: usize)
        ensures
            r == self@.0,
    {
        self.current
    }

    pub fn count(&self) -> (r: usize)
        ensures
            r == self@.1,
    {
        self.count
    }

    /// The file name extension of the current episode's data files:
    /// `dn` and the episode number counted from one.
    pub fn file_extension(&self) -> (s: String)
        ensures
            s@ == seq!['d', 'n'] + spec_decimal(self@.0 + 1),
    {
        proof {
            use_type_invariant(self);
        }
        let mut chars: Vec<char> = Vec::new();
        chars.push('d');
        chars.push('n');
        push_decimal((self.current + 1) as u64, &mut chars);
        string_from_chars(&chars)
    }
}

/// Slots past those probed do not change the count.
proof fn lemma_count_installed_prefix(installed: Seq<bool>, i: int)
    requires
        0 <= i <= installed.len(),
        i == installed.len() || i == EPISODE_SLOTS,
    ensures
        spec_count_installed(installed.subrange(0, i)) == spec_count_installed(installed),
    decreases installed.len() - i,
{
    if i < installed.len() {
        lemma_count_installed_prefix(installed.drop_last(), i);
        assert(installed.drop_last().subrange(0, i) =~= installed.subrange(0, i));
    } else {
        assert(installed.subrange(0, i) =~= installed);
    }
}

/// The episode reached from `current` after switching `n` times.
pub open spec fn switched(current: nat, count: nat, n: nat) -> nat
    decreases n,
{
    if n == 0 { current } else { ((switched(current, count, (n - 1) as nat) + 1) % count) as nat }
}

/// Switching `n` times moves `n` episodes on, wrapping around.
proof fn lemma_switched_offset(current: nat, count: nat, n: nat)
    requires
        count > 0,
        current < count,
    ensures
        switched(current, count, n) == (current + n) % count,
    decreases n,
{
    if n > 0 {
        lemma_switched_offset(current, count, (n - 1) as nat);
        vstd::arithmetic::div_mod::lemma_add_mod_noop_right(1, current + n - 1, count as int);
        assert(1 + (current + n - 1) == current + n);
    } else {
        vstd::arithmetic::div_mod::lemma_small_mod(current, count);
    }
}

/// Switching through all installed episodes comes back to the episode one
/// started from.
pub proof fn lemma_switch_cycles(current: nat, count: nat)
    requires
        count > 0,
        current < count,
    ensures
        switched(current, count, count) == current,
{
    lemma_switched_offset(current, count, count);
    vstd::arithmetic::div_mod::lemma_mod_add_multiples_vanish(current as int, count as int);
    vstd::arithmetic::div_mod::lemma_small_mod(current, count);
}

/// The name of data file `name` of episode slot `number`: the name, `.dn`
/// and the slot number.
pub open spec fn data_file_name(name: Seq<char>, number: nat) -> Seq<char> {
    name + seq!['.', 'd', 'n'] + spec_decimal(number)
}

/// The names of all data files of episode slot `number`, in the order of
/// [`required_names`]; the slot is installed when all of them exist.
pub fn data_file_names(number: usize) -> (r: Vec<String>)
    ensures
        r@.len() == required_names().len(),
        forall|i: int| 0 <= i < r@.len() ==> (#[trigger] r@[i])@ == data_file_name(required_names()[i]@, number as nat),
{
    let names = required_file_names();
    let mut r: Vec<String> = Vec::new();
    let mut i: usize = 0;
    while i < names.len()
        invariant
            i <= names@.len(),
            names@ == required_names(),
            r@.len() == i,
            forall|k: int| 0 <= k < i ==> (#[trigger] r@[k])@ == data_file_name(required_names()[k]@, number as nat),
        decreases names@.len() - i,
    {
        let name: &str = names[i];
        let mut chars: Vec<char> = Vec::new();
        let ghost m = name@;
        for c in it: name.chars()
            invariant
                it.seq() == m,
                chars@ == m.subrange(0, it.index() as int),
        {
            chars.push(c);
            proof {
                assert(chars@ =~= m.subrange(0, it.index() + 1));
            }
        }
        assert(chars@ =~= m);
        chars.push('.');
        chars.push('d');
        chars.push('n');
        push_decimal(number as u64, &mut chars);
        assert(chars@ =~= data_file_name(m, number as nat));
        r.push(string_from_chars(&chars));
        i = i + 1;
    }
    r
}

} // verus!
