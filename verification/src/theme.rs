//! Colour-scheme mode of a theme.

use vstd::prelude::*;

verus! {

/// Color scheme mode.
#[derive(Debug, Clone, Copy, PartialEq, Eq, Structural)]
pub enum ThemeMode {
    Light,
    Dark,
}

impl Default for ThemeMode {
    /// The dark mode.
    fn default() -> (r: Self)
        ensures
            r == ThemeMode::Dark,
    {
        ThemeMode::Dark
    }
}

} // verus!

verus! {

broadcast use vstd::string::group_string_axioms;

/// The index of the first name equal to `name`, if any.
pub open spec fn first_named(names: Seq<Seq<char>>, name: Seq<char>) -> Option<nat> {
    if exists|i: int| 0 <= i < names.len() && names[i] == name {
        Some(
            (choose|i: int|
                0 <= i < names.len() && names[i] == name && forall|j: int|
                    0 <= j < i ==> names[j] != name) as nat,
        )
    } else {
        None
    }
}

/// The registered theme names and which one is active: the selection
/// logic of the theme manager (the themes themselves, with their
/// colours, stay with the application).
pub struct ThemeSelection {
    names: Vec<String>,
    active: usize,
}

/// The model of a theme selection: the names in registration order and
/// the index of the active one.
pub struct ThemeSelectionModel {
    pub names: Seq<Seq<char>>,
    pub active: nat,
}

impl View for ThemeSelection {
    type V = ThemeSelectionModel;

    closed spec fn view(&self) -> ThemeSelectionModel {
        ThemeSelectionModel { names: self.names@.map_values(|s: String| s@), active: self.active as nat }
    }
}

impl ThemeSelection {
    /// There is always a theme, and the active index designates one.
    #[verifier::type_invariant]
    spec fn inv(&self) -> bool {
        0 < self.names@.len() && self.active < self.names@.len()
    }

    /// The dark theme (active) followed by the light theme.
    pub fn new() -> (r: Self)
        ensures
            r@.names == seq!["Dark"@, "Light"@],
            r@.active == 0,
    {
        let mut names: Vec<String> = Vec::new();
        names.push("Dark".to_owned());
        names.push("Light".to_owned());
        let r = ThemeSelection { names, active: 0 };
        assert(r@.names =~= seq!["Dark"@, "Light"@]);
        r
    }

    /// The index of the active theme.
    pub fn current(&self) -> (r: usize)
        ensures
            r == self@.active,
            r < self@.names.len(),
    {
        proof {
            use_type_invariant(self);
        }
        self.active
    }

    /// The name of the active theme.
    pub fn current_name(&self) -> (r: &str)
        ensures
            r@ == self@.names[self@.active as int],
    {
        proof {
            use_type_invariant(self);
        }
        self.names[self.active].as_str()
    }

    /// Makes theme `index` active when it exists; otherwise changes nothing.
    pub fn set_active(&mut self, index: usize)
        ensures
            final(self)@.names == old(self)@.names,
            final(self)@.active == if index < old(self)@.names.len() {
                index as nat
            } else {
                old(self)@.active
            },
    {
        if index < self.names.len() {
            self.active = index;
        }
    }

    /// Makes the next theme active, wrapping around after the last.
    pub fn toggle(&mut self)
        ensures
            final(self)@.names == old(self)@.names,
            final(self)@.active == (old(self)@.active + 1) % old(self)@.names.len(),
    {
        proof {
            use_type_invariant(&*self);
        }
        let n = self.names.len();
        self.active = (self.active + 1) % n;
    }

    /// Registers a theme name after the existing ones.
    pub fn add(&mut self, name: &str)
        ensures
            final(self)@.names == old(self)@.names.push(name@),
            final(self)@.active == old(self)@.active,
    {
        let mut taken = ThemeSelection::new();
        std::mem::swap(&mut taken, self);
        proof {
            use_type_invariant(&taken);
        }
        let ghost before = taken@.names;
        let ThemeSelection { mut names, active } = taken;
        names.push(name.to_owned());
        *self = ThemeSelection { names, active };
        assert(self@.names =~= before.push(name@));
    }

    /// The registered names, in order.
    pub fn list(&self) -> (r: Vec<&str>)
        ensures
            r@.map_values(|s: &str| s@) == self@.names,
    {
        let mut out: Vec<&str> = Vec::new();
        let mut i: usize = 0;
        while i < self.names.len()
            invariant
                i <= self.names@.len(),
                out@.len() == i,
                forall|j: int| 0 <= j < i ==> (#[trigger] out@[j])@ == self@.names[j],
            decreases self.names.len() - i,
        {
            out.push(self.names[i].as_str());
            i = i + 1;
        }
        proof {
            assert(out@.map_values(|s: &str| s@) =~= self@.names);
        }
        out
    }

    /// The index of the first theme with the given name.
    pub fn find(&self, name: &str) -> (r: Option<usize>)
        ensures
            match r {
                Some(i) => {
                    &&& first_named(self@.names, name@) == Some(i as nat)
                    &&& i < self@.names.len()
                    &&& self@.names[i as int] == name@
                    &&& forall|j: int| 0 <= j < i ==> self@.names[j] != name@
                },
                None => first_named(self@.names, name@) is None,
            },
    {
        let wanted = name.to_owned();
        let mut i: usize = 0;
        while i < self.names.len()
            invariant
                i <= self.names@.len(),
                wanted@ == name@,
                forall|j: int| 0 <= j < i ==> self@.names[j] != name@,
            decreases self.names.len() - i,
        {
            if self.names[i] == wanted {
                proof {
                    let names = self@.names;
                    assert(names[i as int] == name@);
                    let k = choose|k: int|
                        0 <= k < names.len() && names[k] == name@ && forall|j: int|
                            0 <= j < k ==> names[j] != name@;
                    assert(k == i);
                }
                return Some(i);
            }
            i = i + 1;
        }
        None
    }

    /// Makes the first theme with the given name active; `false` (and no
    /// change) when no theme has that name.
    pub fn set_by_name(&mut self, name: &str) -> (r: bool)
        ensures
            r == first_named(old(self)@.names, name@) is Some,
            final(self)@.names == old(self)@.names,
            final(self)@.active == match first_named(old(self)@.names, name@) {
                Some(i) => i,
                None => old(self)@.active,
            },
    {
        match self.find(name) {
            Some(idx) => {
                self.set_active(idx);
                true
            },
            None => false,
        }
    }
}

/// The active theme after `k` toggles: each toggle moves to the next
/// theme, wrapping around.
pub open spec fn toggled(active: nat, len: nat, k: nat) -> nat
    decreases k,
{
    if k == 0 {
        active
    } else {
        (toggled(active, len, (k - 1) as nat) + 1) % len
    }
}

proof fn lemma_toggle_steps(active: nat, len: nat, k: nat)
    requires
        active < len,
    ensures
        toggled(active, len, k) == ((active + k) as int) % (len as int),
    decreases k,
{
    if k > 0 {
        lemma_toggle_steps(active, len, (k - 1) as nat);
        vstd::arithmetic::div_mod::lemma_add_mod_noop_right(1, (active + k - 1) as int, len as int);
    } else {
        vstd::arithmetic::div_mod::lemma_small_mod(active, len);
    }
}

/// Toggling `k` times moves `k` themes forward (modulo the number of
/// themes); toggling once per registered theme comes back to the start.
pub proof fn lemma_toggle_cycles(active: nat, len: nat, k: nat)
    requires
        active < len,
    ensures
        toggled(active, len, k) == ((active + k) as int) % (len as int),
        toggled(active, len, len) == active,
{
    lemma_toggle_steps(active, len, k);
    lemma_toggle_steps(active, len, len);
    vstd::arithmetic::div_mod::lemma_mod_add_multiples_vanish(active as int, len as int);
    vstd::arithmetic::div_mod::lemma_small_mod(active, len);
}

} // verus!

verus! {

/// A theme that was just registered can be found by its name: at the new
/// position, unless an earlier theme has the same name.
pub proof fn lemma_added_theme_found(names: Seq<Seq<char>>, name: Seq<char>)
    ensures
        first_named(names.push(name), name) is Some,
        first_named(names, name) is None ==> first_named(names.push(name), name) == Some(
            names.len(),
        ),
{
    let all = names.push(name);
    assert(all[names.len() as int] == name);
    if first_named(names, name) is None {
        let k = choose|i: int|
            0 <= i < all.len() && all[i] == name && forall|j: int| 0 <= j < i ==> all[j] != name;
        if k < names.len() {
            assert(names[k] == name);
        }
    }
}

} // verus!
