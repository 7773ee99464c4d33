//! The daemon's configuration: the urgent-first policy, key-release
//! behaviour, and the keymap. Reading and deserializing a config file is I/O
//! and lives outside the core; this module owns the defaults and the
//! validation rule for keybinds.

use vstd::prelude::*;

verus! {

/// Keybinds for the switcher's actions; `None` leaves an action unbound.
#[derive(Debug)]
pub struct KeymapConfig {
    pub dismiss: Option<String>,
    pub select: Option<String>,
    pub peek: Option<String>,
    pub next: Option<String>,
    pub prev: Option<String>,
    pub peek_next: Option<String>,
    pub peek_prev: Option<String>,
}

/// The daemon's configuration.
#[derive(Debug)]
pub struct Config {
    pub icon_theme: Option<String>,
    pub font: Option<String>,
    pub urgent_first: bool,
    pub dismiss_on_release: bool,
    pub select_on_release: bool,
    pub release_keys: Vec<String>,
    pub keymap: KeymapConfig,
}

/// Default for the urgent-first policy: urgent windows float to the front.
pub fn urgent_first() -> (r: bool)
    ensures
        r,
{
    true
}

/// Default: releasing the last modifier dismisses the switcher.
pub fn dismiss_on_release() -> (r: bool)
    ensures
        r,
{
    true
}

/// Default: releasing the last modifier selects the focused window.
pub fn select_on_release() -> (r: bool)
    ensures
        r,
{
    true
}

/// Default keybind that dismisses the switcher.
pub fn dismiss_key() -> (r: Option<String>)
    ensures
        r matches Some(s) && s@ == "Escape"@,
{
    Some("Escape".to_owned())
}

/// Default keybind that selects the focused window.
pub fn select_key() -> (r: Option<String>)
    ensures
        r matches Some(s) && s@ == "Return"@,
{
    Some("Return".to_owned())
}

/// Default keybind that peeks at the focused window: unbound.
pub fn peek_key() -> (r: Option<String>)
    ensures
        r is None,
{
    None
}

/// Default keybind that selects the next window.
pub fn next_key() -> (r: Option<String>)
    ensures
        r matches Some(s) && s@ == "<Super>Tab"@,
{
    Some("<Super>Tab".to_owned())
}

/// Default keybind that selects the previous window.
pub fn prev_key() -> (r: Option<String>)
    ensures
        r matches Some(s) && s@ == "<Super><Shift>Tab"@,
{
    Some("<Super><Shift>Tab".to_owned())
}

/// Default keybind that peeks at the next window: unbound.
pub fn peek_next_key() -> (r: Option<String>)
    ensures
        r is None,
{
    None
}

/// Default keybind that peeks at the previous window: unbound.
pub fn peek_prev_key() -> (r: Option<String>)
    ensures
        r is None,
{
    None
}

/// One keybind from the config together with whether it parses as an
/// accelerator. The parse itself is done by the GUI toolkit outside this
/// crate; which keybinds must parse, and which error is raised, is decided
/// here.
#[derive(Debug)]
pub struct KeybindCheck {
    /// The config entry the keybind came from.
    pub name: String,
    /// The keybind string itself.
    pub key: String,
    /// Whether it parses as an accelerator.
    pub parses: bool,
}

/// An invalid keybind in the configuration.
#[derive(Debug)]
pub struct ConfigError {
    /// The config entry holding the invalid keybind.
    pub keybind_name: String,
    /// The keybind that did not parse.
    pub key: String,
}

impl ConfigError {
    /// A human-readable description of the failure.
    pub fn message(&self) -> (r: String)
        ensures
            r@ == "invalid keybind in config"@,
    {
        "invalid keybind in config".to_owned()
    }
}

/// The zero-or-one keybind entries contributed by an optional keybind.
pub open spec fn opt_keybind(name: Seq<char>, v: Option<String>) -> Seq<(Seq<char>, Seq<char>)> {
    match v {
        Some(k) => seq![(name, k@)],
        None => Seq::empty(),
    }
}

/// The first `n` release keys as (entry name, keybind) pairs.
pub open spec fn release_entries(c: &Config, n: int) -> Seq<(Seq<char>, Seq<char>)> {
    Seq::new(n as nat, |i: int| ("release_keys"@, c.release_keys@[i]@))
}

/// Every keybind the config carries, as (entry name, keybind) pairs: each
/// release key, then each bound keymap action, in a fixed order.
pub open spec fn keybind_entries_spec(c: &Config) -> Seq<(Seq<char>, Seq<char>)> {
    release_entries(c, c.release_keys@.len() as int) + opt_keybind(
        "dismiss"@,
        c.keymap.dismiss,
    ) + opt_keybind("select"@, c.keymap.select) + opt_keybind("peek"@, c.keymap.peek) + opt_keybind(
        "next"@,
        c.keymap.next,
    ) + opt_keybind("prev"@, c.keymap.prev) + opt_keybind("peek_next"@, c.keymap.peek_next)
        + opt_keybind("peek_prev"@, c.keymap.peek_prev)
}

impl Config {
    /// The configuration used when no config file overrides it: urgent-first
    /// ordering, select-and-dismiss on modifier release, and the standard
    /// keybinds.
    pub fn read() -> (r: Result<Config, ConfigError>)
        ensures
            r matches Ok(c) && {
                &&& c.icon_theme matches Some(s) && s@ == "Papirus-Dark"@
                &&& c.font matches Some(s) && s@ == "Fira Sans 13"@
                &&& c.urgent_first
                &&& c.dismiss_on_release
                &&& c.select_on_release
                &&& c.release_keys@ == Seq::<String>::empty()
                &&& c.keymap.dismiss matches Some(s) && s@ == "Escape"@
                &&& c.keymap.select matches Some(s) && s@ == "Return"@
                &&& c.keymap.peek is None
                &&& c.keymap.next matches Some(s) && s@ == "<Super>Tab"@
                &&& c.keymap.prev matches Some(s) && s@ == "<Super><Shift>Tab"@
                &&& c.keymap.peek_next is None
                &&& c.keymap.peek_prev is None
            },
    {
        let release_keys: Vec<String> = Vec::new();
        proof {
            assert(release_keys@ =~= Seq::<String>::empty());
        }
        Ok(
            Config {
                icon_theme: Some("Papirus-Dark".to_owned()),
                font: Some("Fira Sans 13".to_owned()),
                urgent_first: urgent_first(),
                dismiss_on_release: dismiss_on_release(),
                select_on_release: select_on_release(),
                release_keys,
                keymap: KeymapConfig {
                    dismiss: dismiss_key(),
                    select: select_key(),
                    peek: peek_key(),
                    next: next_key(),
                    prev: prev_key(),
                    peek_next: peek_next_key(),
                    peek_prev: peek_prev_key(),
                },
            },
        )
    }

    /// Every keybind that must be validated, as (entry name, keybind) pairs.
    pub fn keybind_entries(&self) -> (r: Vec<(String, String)>)
        ensures
            r.deep_view() == keybind_entries_spec(self),
    {
        let mut r: Vec<(String, String)> = Vec::new();
        let n = self.release_keys.len();
        let mut i: usize = 0;
        proof {
            assert(r.deep_view() =~= release_entries(self, 0));
        }
        while i < n
            invariant
                n == self.release_keys.len(),
                i <= n,
                r.deep_view() == release_entries(self, i as int),
            decreases n - i,
        {
            let ghost r0 = r.deep_view();
            let name = "release_keys".to_owned();
            let key = self.release_keys[i].clone();
            proof {
                assert(name@ == "release_keys"@ && key@ == self.release_keys@[i as int]@);
            }
            r.push((name, key));
            proof {
                assert(r.deep_view().len() == r@.len());
                assert(r0.len() == i as int);
                assert(r@.len() == i + 1);
                assert(r.deep_view()[i as int] == ("release_keys"@, self.release_keys@[i as int]@));
                assert(forall|k: int| 0 <= k < i ==> r.deep_view()[k] == r0[k]);
                assert forall|k: int| 0 <= k < i + 1 implies r.deep_view()[k] == release_entries(
                    self,
                    i + 1,
                )[k] by {
                    assert(release_entries(self, i + 1)[k] == ("release_keys"@,
                    self.release_keys@[k]@));
                    if k < i {
                        assert(r0[k] == release_entries(self, i as int)[k]);
                        assert(release_entries(self, i as int)[k] == ("release_keys"@,
                        self.release_keys@[k]@));
                    }
                }
                assert(r.deep_view() =~= release_entries(self, i + 1));
            }
            i = i + 1;
        }
        if let Some(k) = &self.keymap.dismiss {
            r.push(("dismiss".to_owned(), k.clone()));
        }
        if let Some(k) = &self.keymap.select {
            r.push(("select".to_owned(), k.clone()));
        }
        if let Some(k) = &self.keymap.peek {
            r.push(("peek".to_owned(), k.clone()));
        }
        if let Some(k) = &self.keymap.next {
            r.push(("next".to_owned(), k.clone()));
        }
        if let Some(k) = &self.keymap.prev {
            r.push(("prev".to_owned(), k.clone()));
        }
        if let Some(k) = &self.keymap.peek_next {
            r.push(("peek_next".to_owned(), k.clone()));
        }
        if let Some(k) = &self.keymap.peek_prev {
            r.push(("peek_prev".to_owned(), k.clone()));
        }
        proof {
            assert(r.deep_view() =~= keybind_entries_spec(self));
        }
        r
    }

    /// The validation rule: the config is accepted exactly when every listed
    /// keybind parses, and the first keybind that does not parse names the
    /// error.
    pub fn validate(checks: &Vec<KeybindCheck>) -> (r: Result<(), ConfigError>)
        ensures
            r is Ok <==> (forall|i: int|
                0 <= i < checks@.len() ==> (#[trigger] checks@[i]).parses),
            r matches Err(e) ==> exists|i: int|
                0 <= i < checks@.len() && !(#[trigger] checks@[i]).parses && e.keybind_name@
                    == checks@[i].name@ && e.key@ == checks@[i].key@ && (forall|j: int|
                    0 <= j < i ==> (#[trigger] checks@[j]).parses),
    {
        let n = checks.len();
        let mut i: usize = 0;
        while i < n
            invariant
                n == checks@.len(),
                i <= n,
                forall|j: int| 0 <= j < i ==> (#[trigger] checks@[j]).parses,
            decreases n - i,
        {
            if !checks[i].parses {
                return Err(
                    ConfigError {
                        keybind_name: checks[i].name.clone(),
                        key: checks[i].key.clone(),
                    },
                );
            }
            i = i + 1;
        }
        Ok(())
    }
}

} // verus!
