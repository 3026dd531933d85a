use vstd::prelude::*;
use crate::text::str_eq;
use crate::config::{Settings, settings_defaults};

verus! {

/// The file name of the default configuration.
pub open spec fn default_config_file() -> Seq<char> {
    "default.conf.json"@
}

/// The file name a configuration named `name` is saved under: the name and
/// the ".conf.json" extension; none for an empty name.
pub open spec fn config_file_for(name: Seq<char>) -> Option<Seq<char>> {
    if name.len() == 0 {
        None
    } else {
        Some(name + ".conf.json"@)
    }
}

/// The file to create for a new configuration named `name`; `None` when the
/// name is empty, so that nothing is created.
pub fn new_config_file(name: &str) -> (r: Option<String>)
    ensures
        match r {
            Some(file) => config_file_for(name@) == Some(file@),
            None => config_file_for(name@) is None,
        },
{
    if name.unicode_len() == 0 {
        None
    } else {
        let mut file = String::from_str(name);
        file.append(".conf.json");
        Some(file)
    }
}

/// The menu's memory of which configuration file is loaded.
#[derive(Clone, Debug)]
pub struct ConfigMenu {
    pub loaded: Option<String>,
}

/// The loaded file's name, if any.
pub open spec fn loaded_view(menu: ConfigMenu) -> Option<Seq<char>> {
    match menu.loaded {
        Some(f) => Some(f@),
        None => None,
    }
}

/// Whether `file` is among the saved configurations.
pub open spec fn listed(configs: Seq<(String, bool)>, file: Seq<char>) -> bool {
    exists|i: int| 0 <= i < configs.len() && (#[trigger] configs[i]).0@ == file
}

/// Whether the default configuration is listed and could be read.
pub open spec fn default_readable(configs: Seq<(String, bool)>) -> bool {
    exists|i: int| 0 <= i < configs.len() && (#[trigger] configs[i]).0@ == default_config_file() && configs[i].1
}

fn find(configs: &[(String, bool)], file: &str, need_readable: bool) -> (r: bool)
    ensures
        r == exists|i: int| 0 <= i < configs@.len() && (#[trigger] configs@[i]).0@ == file@ && (!need_readable || configs@[i].1),
{
    let mut i: usize = 0;
    while i < configs.len()
        invariant
            i <= configs@.len(),
            forall|j: int| 0 <= j < i ==> !((#[trigger] configs@[j]).0@ == file@ && (!need_readable || configs@[j].1)),
        decreases configs@.len() - i,
    {
        if str_eq(configs[i].0.as_str(), file) && (!need_readable || configs[i].1) {
            assert(configs@[i as int].0@ == file@);
            return true;
        }
        i = i + 1;
    }
    false
}

impl ConfigMenu {
    /// A menu with nothing loaded.
    pub fn new() -> (r: ConfigMenu)
        ensures
            r.loaded is None,
    {
        ConfigMenu { loaded: None }
    }

    /// Records that `file` was loaded (created, selected or reset to).
    pub fn load(&mut self, file: String)
        ensures
            loaded_view(*final(self)) == Some(file@),
    {
        self.loaded = Some(file);
    }

    /// Resets to the default configuration: every setting takes its
    /// default value and the default file becomes the loaded one. (The
    /// window positions, which are floating point, are reset by the caller
    /// to theirs.)
    pub fn reset(&mut self, settings: &mut Settings)
        ensures
            loaded_view(*final(self)) == Some(default_config_file()),
            *final(settings) == settings_defaults(),
    {
        *settings = Settings::default();
        self.mark_default();
    }

    /// Marks the default file as the loaded one.
    fn mark_default(&mut self)
        ensures
            loaded_view(*final(self)) == Some(default_config_file()),
    {
        self.loaded = Some("default.conf.json".to_string());
    }

    /// The end of "create": `file` (from `new_config_file` of the typed
    /// name) was saved or not. A saved file becomes the loaded one and the
    /// typed name is cleared; a failed save keeps both as they were and
    /// asks for one error report (the result).
    pub fn config_created(&mut self, typed_name: &mut String, file: String, saved: bool) -> (report_error: bool)
        ensures
            report_error == !saved,
            saved ==> loaded_view(*final(self)) == Some(file@) && final(typed_name)@.len() == 0,
            !saved ==> loaded_view(*final(self)) == loaded_view(*old(self)) && final(typed_name)@
                == old(typed_name)@,
    {
        if saved {
            *typed_name = String::new();
            self.loaded = Some(file);
            false
        } else {
            true
        }
    }

    /// Checks the loaded file against the saved configurations (each with
    /// whether it could be read): when the loaded file is gone and the
    /// default one is listed and readable, the default becomes the loaded
    /// one. Returns whether that happened, so that the caller applies the
    /// default configuration.
    pub fn fall_back_to_default(&mut self, configs: &[(String, bool)]) -> (switched: bool)
        ensures
            switched == (old(self).loaded is Some && !listed(configs@, loaded_view(*old(self))->0)
                && default_readable(configs@)),
            loaded_view(*final(self)) == (if switched {
                Some(default_config_file())
            } else {
                loaded_view(*old(self))
            }),
    {
        let switch = match &self.loaded {
            None => false,
            Some(file) => !find(configs, file.as_str(), false) && find(configs, "default.conf.json", true),
        };
        if switch {
            self.mark_default();
        }
        switch
    }

    /// The loaded file, when it may be deleted: the default configuration
    /// never may.
    pub fn deletable(&self) -> (r: Option<String>)
        ensures
            match r {
                Some(f) => loaded_view(*self) == Some(f@) && f@ != default_config_file(),
                None => loaded_view(*self) is None || loaded_view(*self) == Some(default_config_file()),
            },
    {
        match &self.loaded {
            None => None,
            Some(file) => {
                if str_eq(file.as_str(), "default.conf.json") {
                    None
                } else {
                    Some(file.clone())
                }
            },
        }
    }
}

} // verus!
