//! Run settings, merged from layers: defaults, a configuration file, the
//! environment and the command line, each later layer overriding the earlier.

use vstd::prelude::*;
use crate::cli::Cli;
use crate::env::EnvVars;
use crate::remote::RemoteFile;

verus! {

/// The name that prefixes the environment variables read as settings.
pub const THIS_CRATE_NAME: &'static str = "checklints";

/// The text in upper case.
pub uninterp spec fn upper_of(s: Seq<char>) -> Seq<char>;

/// Relies on `str::to_uppercase`: the result depends on the text alone.
#[verifier::external_body]
fn uppercase(s: &str) -> (r: String)
    ensures
        r@ == upper_of(s@),
{
    s.to_uppercase()
}

pub fn default_user_checklists() -> (r: bool)
    ensures
        r,
{
    true
}

pub fn default_fail_fast() -> (r: bool)
    ensures
        !r,
{
    false
}

pub fn default_no_read_cache() -> (r: bool)
    ensures
        !r,
{
    false
}

pub fn default_no_write_cache() -> (r: bool)
    ensures
        !r,
{
    false
}

pub fn default_no_cache() -> (r: bool)
    ensures
        !r,
{
    false
}

pub fn default_clear_cache() -> (r: bool)
    ensures
        !r,
{
    false
}

/// The environment variable for a setting: the crate name in upper case,
/// `_`, then the key.
pub open spec fn prefixed(key: Seq<char>) -> Seq<char> {
    upper_of(THIS_CRATE_NAME@) + "_"@ + key
}

pub fn prefix_key(key: &str) -> (r: String)
    ensures
        r@ == prefixed(key@),
{
    let mut s = uppercase(THIS_CRATE_NAME);
    s.append("_");
    s.append(key);
    s
}

/// The settings of a run.
#[derive(Debug)]
pub struct Settings {
    pub user_checklists: bool,
    pub fail_fast: bool,
    pub no_read_cache: bool,
    pub no_write_cache: bool,
    pub clear_cache: bool,
    pub external_checklists: Vec<RemoteFile>,
    pub external_templates: Vec<RemoteFile>,
}

impl Settings {
    pub fn new() -> (r: Settings)
        ensures
            r.user_checklists && !r.fail_fast && !r.no_read_cache && !r.no_write_cache
                && !r.clear_cache,
            r.external_checklists@.len() == 0 && r.external_templates@.len() == 0,
    {
        Settings::default()
    }

    pub fn builder() -> (r: SettingsBuilder)
        ensures
            r.settings.is_default_layer(),
    {
        SettingsBuilder::new()
    }

    pub fn user_checklists(&self) -> (r: bool)
        ensures
            r == self.user_checklists,
    {
        self.user_checklists
    }

    pub fn fail_fast(&self) -> (r: bool)
        ensures
            r == self.fail_fast,
    {
        self.fail_fast
    }

    pub fn no_read_cache(&self) -> (r: bool)
        ensures
            r == self.no_read_cache,
    {
        self.no_read_cache
    }

    pub fn no_write_cache(&self) -> (r: bool)
        ensures
            r == self.no_write_cache,
    {
        self.no_write_cache
    }

    pub fn clear_cache(&self) -> (r: bool)
        ensures
            r == self.clear_cache,
    {
        self.clear_cache
    }

    pub fn external_checklists(&self) -> (r: &Vec<RemoteFile>)
        ensures
            *r == self.external_checklists,
    {
        &self.external_checklists
    }

    pub fn external_templates(&self) -> (r: &Vec<RemoteFile>)
        ensures
            *r == self.external_templates,
    {
        &self.external_templates
    }
}

impl Default for Settings {
    fn default() -> (r: Settings)
        ensures
            r.user_checklists && !r.fail_fast && !r.no_read_cache && !r.no_write_cache
                && !r.clear_cache,
            r.external_checklists@.len() == 0 && r.external_templates@.len() == 0,
    {
        Settings {
            user_checklists: default_user_checklists(),
            fail_fast: default_fail_fast(),
            no_read_cache: default_no_read_cache(),
            no_write_cache: default_no_write_cache(),
            clear_cache: default_clear_cache(),
            external_checklists: Vec::new(),
            external_templates: Vec::new(),
        }
    }
}

/// One layer of settings: each option set or left open.
#[derive(Debug)]
pub struct MaybeSettings {
    pub user_checklists: Option<bool>,
    pub fail_fast: Option<bool>,
    pub no_read_cache: Option<bool>,
    pub no_write_cache: Option<bool>,
    pub no_cache: Option<bool>,
    pub clear_cache: Option<bool>,
    pub external_checklists: Vec<RemoteFile>,
    pub external_templates: Vec<RemoteFile>,
}

/// A setting that a layer could not complete.
#[derive(Debug, PartialEq, Eq)]
pub enum SettingsError {
    /// The named option is set in no layer.
    NotSet { option: String },
}

/// The option that `to_settings` reports as missing, if any, in the order it
/// checks them.
pub open spec fn missing_option(m: MaybeSettings) -> Option<Seq<char>> {
    if m.user_checklists is None {
        Some("user_checklists"@)
    } else if m.fail_fast is None {
        Some("fail_fast"@)
    } else if m.no_cache != Some(true) && m.no_read_cache is None {
        Some("no_read_cache"@)
    } else if m.no_cache != Some(true) && m.no_write_cache is None {
        Some("no_write_cache"@)
    } else if m.clear_cache is None {
        Some("clear_cache"@)
    } else {
        None
    }
}

/// `b` over `a`: the value of `b` where it is set.
pub open spec fn over(a: Option<bool>, b: Option<bool>) -> Option<bool> {
    match b {
        Some(x) => Some(x),
        None => a,
    }
}

pub open spec fn opt_unwrap(o: Option<bool>) -> bool {
    match o {
        Some(x) => x,
        None => false,
    }
}

impl MaybeSettings {
    pub open spec fn is_empty_layer(&self) -> bool {
        &&& self.user_checklists is None
        &&& self.fail_fast is None
        &&& self.no_read_cache is None
        &&& self.no_write_cache is None
        &&& self.no_cache is None
        &&& self.clear_cache is None
        &&& self.external_checklists@.len() == 0
        &&& self.external_templates@.len() == 0
    }

    /// Every option set to its default, no external resources.
    pub open spec fn is_default_layer(&self) -> bool {
        &&& self.user_checklists == Some(true)
        &&& self.fail_fast == Some(false)
        &&& self.no_read_cache == Some(false)
        &&& self.no_write_cache == Some(false)
        &&& self.no_cache == Some(false)
        &&& self.clear_cache == Some(false)
        &&& self.external_checklists@.len() == 0
        &&& self.external_templates@.len() == 0
    }

    /// A layer that sets nothing.
    pub fn empty() -> (r: MaybeSettings)
        ensures
            r.is_empty_layer(),
    {
        MaybeSettings {
            user_checklists: None,
            fail_fast: None,
            no_read_cache: None,
            no_write_cache: None,
            no_cache: None,
            clear_cache: None,
            external_checklists: Vec::new(),
            external_templates: Vec::new(),
        }
    }

    /// The completed settings; "no cache" implies neither reading nor writing
    /// it. Fails naming the first option that no layer set.
    pub fn to_settings(self) -> (r: Result<Settings, SettingsError>)
        ensures
            match missing_option(self) {
                Some(name) => r matches Err(SettingsError::NotSet { option }) && option@ == name,
                None => r matches Ok(s) && s.user_checklists == opt_unwrap(self.user_checklists)
                    && s.fail_fast == opt_unwrap(self.fail_fast) && s.clear_cache == opt_unwrap(
                    self.clear_cache,
                ) && s.no_read_cache == (self.no_cache == Some(true) || opt_unwrap(
                    self.no_read_cache,
                )) && s.no_write_cache == (self.no_cache == Some(true) || opt_unwrap(
                    self.no_write_cache,
                )) && s.external_checklists == self.external_checklists && s.external_templates
                    == self.external_templates,
            },
    {
        let user_checklists = match self.user_checklists {
            Some(v) => v,
            None => {
                return Err(SettingsError::NotSet { option: String::from_str("user_checklists") });
            },
        };
        let fail_fast = match self.fail_fast {
            Some(v) => v,
            None => {
                return Err(SettingsError::NotSet { option: String::from_str("fail_fast") });
            },
        };
        let no_cache = match self.no_cache {
            Some(v) => v,
            None => false,
        };
        let (no_read_cache, no_write_cache) = if no_cache {
            (true, true)
        } else {
            let no_read_cache = match self.no_read_cache {
                Some(v) => v,
                None => {
                    return Err(SettingsError::NotSet { option: String::from_str("no_read_cache") });
                },
            };
            let no_write_cache = match self.no_write_cache {
                Some(v) => v,
                None => {
                    return Err(
                        SettingsError::NotSet { option: String::from_str("no_write_cache") },
                    );
                },
            };
            (no_read_cache, no_write_cache)
        };
        let clear_cache = match self.clear_cache {
            Some(v) => v,
            None => {
                return Err(SettingsError::NotSet { option: String::from_str("clear_cache") });
            },
        };
        Ok(
            Settings {
                user_checklists,
                fail_fast,
                no_read_cache,
                no_write_cache,
                clear_cache,
                external_checklists: self.external_checklists,
                external_templates: self.external_templates,
            },
        )
    }

    /// Lays `layer` over this one: each option the layer sets wins, and its
    /// external resources come after the ones already listed.
    pub fn layer(&mut self, layer: MaybeSettings)
        ensures
            final(self).user_checklists == over(old(self).user_checklists, layer.user_checklists),
            final(self).fail_fast == over(old(self).fail_fast, layer.fail_fast),
            final(self).no_read_cache == over(old(self).no_read_cache, layer.no_read_cache),
            final(self).no_write_cache == over(old(self).no_write_cache, layer.no_write_cache),
            final(self).no_cache == over(old(self).no_cache, layer.no_cache),
            final(self).clear_cache == over(old(self).clear_cache, layer.clear_cache),
            final(self).external_checklists@ == old(self).external_checklists@
                + layer.external_checklists@,
            final(self).external_templates@ == old(self).external_templates@
                + layer.external_templates@,
    {
        let mut layer = layer;
        if let Some(v) = layer.user_checklists {
            self.user_checklists = Some(v);
        }
        if let Some(v) = layer.fail_fast {
            self.fail_fast = Some(v);
        }
        if let Some(v) = layer.no_read_cache {
            self.no_read_cache = Some(v);
        }
        if let Some(v) = layer.no_write_cache {
            self.no_write_cache = Some(v);
        }
        if let Some(v) = layer.no_cache {
            self.no_cache = Some(v);
        }
        if let Some(v) = layer.clear_cache {
            self.clear_cache = Some(v);
        }
        self.external_checklists.append(&mut layer.external_checklists);
        self.external_templates.append(&mut layer.external_templates);
    }

    /// The layer that the command line gives: each flag that is present sets
    /// its option.
    pub fn from_args(args: Cli) -> (r: MaybeSettings)
        ensures
            r.user_checklists == (if args.no_user_checklists {
                Some(false)
            } else {
                None
            }),
            r.fail_fast == (if args.fail_fast {
                Some(true)
            } else {
                None
            }),
            r.no_read_cache == (if args.no_read_cache {
                Some(true)
            } else {
                None
            }),
            r.no_write_cache == (if args.no_write_cache {
                Some(true)
            } else {
                None
            }),
            r.no_cache == (if args.no_cache {
                Some(true)
            } else {
                None
            }),
            r.clear_cache == (if args.clear_cache {
                Some(true)
            } else {
                None
            }),
            r.external_checklists == args.external_checklist,
            r.external_templates == args.external_template,
    {
        let mut layer = MaybeSettings::empty();
        if args.no_user_checklists {
            layer.user_checklists = Some(false);
        }
        if args.fail_fast {
            layer.fail_fast = Some(true);
        }
        if args.no_write_cache {
            layer.no_write_cache = Some(true);
        }
        if args.no_read_cache {
            layer.no_read_cache = Some(true);
        }
        if args.no_cache {
            layer.no_cache = Some(true);
        }
        if args.clear_cache {
            layer.clear_cache = Some(true);
        }
        layer.external_checklists = args.external_checklist;
        layer.external_templates = args.external_template;
        layer
    }

    /// The layer that the environment gives: each prefixed variable that is
    /// set, whatever its value, sets its option.
    pub fn from_env(env: &EnvVars) -> (r: MaybeSettings)
        requires
            env.wf(),
        ensures
            r.user_checklists == (if env.view().contains_key(prefixed("USER_CHECKLISTS"@)) {
                Some(true)
            } else {
                None
            }),
            r.fail_fast == (if env.view().contains_key(prefixed("FAIL_FAST"@)) {
                Some(true)
            } else {
                None
            }),
            r.no_cache == (if env.view().contains_key(prefixed("NO_CACHE"@)) {
                Some(true)
            } else {
                None
            }),
            r.no_read_cache == (if env.view().contains_key(prefixed("NO_READ_CACHE"@)) {
                Some(true)
            } else {
                None
            }),
            r.no_write_cache == (if env.view().contains_key(prefixed("NO_WRITE_CACHE"@)) {
                Some(true)
            } else {
                None
            }),
            r.clear_cache == (if env.view().contains_key(prefixed("CLEAR_CACHE"@)) {
                Some(true)
            } else {
                None
            }),
            r.external_checklists@.len() == 0,
            r.external_templates@.len() == 0,
    {
        let mut layer = MaybeSettings::empty();
        if env.contains(&prefix_key("USER_CHECKLISTS")) {
            layer.user_checklists = Some(true);
        }
        if env.contains(&prefix_key("FAIL_FAST")) {
            layer.fail_fast = Some(true);
        }
        if env.contains(&prefix_key("NO_CACHE")) {
            layer.no_cache = Some(true);
        }
        if env.contains(&prefix_key("NO_READ_CACHE")) {
            layer.no_read_cache = Some(true);
        }
        if env.contains(&prefix_key("NO_WRITE_CACHE")) {
            layer.no_write_cache = Some(true);
        }
        if env.contains(&prefix_key("CLEAR_CACHE")) {
            layer.clear_cache = Some(true);
        }
        layer
    }
}

impl Default for MaybeSettings {
    fn default() -> (r: MaybeSettings)
        ensures
            r.is_default_layer(),
    {
        MaybeSettings {
            user_checklists: Some(default_user_checklists()),
            fail_fast: Some(default_fail_fast()),
            no_read_cache: Some(default_no_read_cache()),
            no_write_cache: Some(default_no_write_cache()),
            no_cache: Some(default_no_cache()),
            clear_cache: Some(default_clear_cache()),
            external_checklists: Vec::new(),
            external_templates: Vec::new(),
        }
    }
}

/// Builds settings from the defaults and the layers laid over them.
#[derive(Debug)]
pub struct SettingsBuilder {
    pub settings: MaybeSettings,
}

impl SettingsBuilder {
    pub fn new() -> (r: SettingsBuilder)
        ensures
            r.settings.is_default_layer(),
    {
        SettingsBuilder { settings: MaybeSettings::default() }
    }

    pub fn build(self) -> (r: Result<Settings, SettingsError>)
        ensures
            match missing_option(self.settings) {
                Some(name) => r matches Err(SettingsError::NotSet { option }) && option@ == name,
                None => r is Ok,
            },
    {
        self.settings.to_settings()
    }

    /// Lays the environment's settings over the current ones.
    pub fn env_layer(self, env: &EnvVars) -> (r: SettingsBuilder)
        requires
            env.wf(),
        ensures
            r.settings.fail_fast == over(
                self.settings.fail_fast,
                if env.view().contains_key(prefixed("FAIL_FAST"@)) {
                    Some(true)
                } else {
                    None
                },
            ),
            r.settings.clear_cache == over(
                self.settings.clear_cache,
                if env.view().contains_key(prefixed("CLEAR_CACHE"@)) {
                    Some(true)
                } else {
                    None
                },
            ),
            r.settings.external_checklists@ == self.settings.external_checklists@,
    {
        let mut b = self;
        let layer = MaybeSettings::from_env(env);
        b.settings.layer(layer);
        assert(b.settings.external_checklists@ =~= self.settings.external_checklists@);
        b
    }

    /// Lays the configuration file's settings over the current ones.
    pub fn config_layer(self, layer: MaybeSettings) -> (r: SettingsBuilder)
        ensures
            r.settings.user_checklists == over(self.settings.user_checklists, layer.user_checklists),
            r.settings.fail_fast == over(self.settings.fail_fast, layer.fail_fast),
            r.settings.no_read_cache == over(self.settings.no_read_cache, layer.no_read_cache),
            r.settings.no_write_cache == over(self.settings.no_write_cache, layer.no_write_cache),
            r.settings.no_cache == over(self.settings.no_cache, layer.no_cache),
            r.settings.clear_cache == over(self.settings.clear_cache, layer.clear_cache),
            r.settings.external_checklists@ == self.settings.external_checklists@
                + layer.external_checklists@,
            r.settings.external_templates@ == self.settings.external_templates@
                + layer.external_templates@,
    {
        let mut b = self;
        b.settings.layer(layer);
        b
    }

    /// Lays the command line's settings over the current ones.
    pub fn arg_layer(self, args: Cli) -> (r: SettingsBuilder)
        ensures
            r.settings.fail_fast == over(
                self.settings.fail_fast,
                if args.fail_fast {
                    Some(true)
                } else {
                    None
                },
            ),
            r.settings.no_cache == over(
                self.settings.no_cache,
                if args.no_cache {
                    Some(true)
                } else {
                    None
                },
            ),
            r.settings.external_checklists@ == self.settings.external_checklists@
                + args.external_checklist@,
    {
        let mut b = self;
        let layer = MaybeSettings::from_args(args);
        b.settings.layer(layer);
        b
    }

    pub fn user_checklists(self, enable: bool) -> (r: SettingsBuilder)
        ensures
            r.settings.user_checklists == Some(enable),
    {
        let mut b = self;
        b.settings.user_checklists = Some(enable);
        b
    }

    pub fn fail_fast(self, enable: bool) -> (r: SettingsBuilder)
        ensures
            r.settings.fail_fast == Some(enable),
    {
        let mut b = self;
        b.settings.fail_fast = Some(enable);
        b
    }

    pub fn no_read_cache(self, enable: bool) -> (r: SettingsBuilder)
        ensures
            r.settings.no_read_cache == Some(enable),
    {
        let mut b = self;
        b.settings.no_read_cache = Some(enable);
        b
    }

    pub fn no_write_cache(self, enable: bool) -> (r: SettingsBuilder)
        ensures
            r.settings.no_write_cache == Some(enable),
    {
        let mut b = self;
        b.settings.no_write_cache = Some(enable);
        b
    }

    pub fn no_cache(self, enable: bool) -> (r: SettingsBuilder)
        ensures
            r.settings.no_cache == Some(enable),
    {
        let mut b = self;
        b.settings.no_cache = Some(enable);
        b
    }

    pub fn clear_cache(self, enable: bool) -> (r: SettingsBuilder)
        ensures
            r.settings.clear_cache == Some(enable),
    {
        let mut b = self;
        b.settings.clear_cache = Some(enable);
        b
    }

    pub fn add_external_checklist(self, checklist: RemoteFile) -> (r: SettingsBuilder)
        ensures
            r.settings.external_checklists@ == self.settings.external_checklists@.push(checklist),
    {
        let mut b = self;
        b.settings.external_checklists.push(checklist);
        b
    }

    pub fn add_external_template(self, template: RemoteFile) -> (r: SettingsBuilder)
        ensures
            r.settings.external_templates@ == self.settings.external_templates@.push(template),
    {
        let mut b = self;
        b.settings.external_templates.push(template);
        b
    }

    pub fn set_external_checklists(self, checklists: Vec<RemoteFile>) -> (r: SettingsBuilder)
        ensures
            r.settings.external_checklists == checklists,
    {
        let mut b = self;
        b.settings.external_checklists = checklists;
        b
    }

    pub fn set_external_templates(self, templates: Vec<RemoteFile>) -> (r: SettingsBuilder)
        ensures
            r.settings.external_templates == templates,
    {
        let mut b = self;
        b.settings.external_templates = templates;
        b
    }
}

} // verus!
