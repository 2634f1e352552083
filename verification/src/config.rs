use vstd::prelude::*;

verus! {

/// Settings the runtime builder is constructed from. The shell always starts
/// from the default configuration: it registers no commands, installs no
/// plugins and supplies no menu of its own.
#[derive(Clone, Copy, Debug, PartialEq, Eq, Structural)]
pub struct BuilderSettings {
    /// Number of command handlers the shell registers with the runtime.
    pub custom_commands: u32,
    /// Number of plugins the shell installs into the runtime.
    pub custom_plugins: u32,
    /// Whether the shell supplies a menu of its own.
    pub custom_menu: bool,
}

impl BuilderSettings {
    /// The default configuration registers nothing of its own.
    pub open spec fn is_default_settings(self) -> bool {
        self.custom_commands == 0 && self.custom_plugins == 0 && !self.custom_menu
    }
}

impl Default for BuilderSettings {
    /// The builder the shell starts from: entirely default.
    fn default() -> (s: Self)
        ensures
            s.is_default_settings(),
    {
        BuilderSettings { custom_commands: 0, custom_plugins: 0, custom_menu: false }
    }
}

/// The embedding context: the immutable bundle of build-time configuration
/// (application identifier, window metadata, icon resources, bundled-asset
/// root) that the runtime constructor consumes. The shell passes it through
/// unchanged; the two resolution fields record whether the bundled frontend
/// artifact can actually be materialized.
#[derive(Clone, Debug, PartialEq, Eq)]
pub struct EmbeddingContext {
    /// Application identifier from the static configuration resource.
    pub identifier: String,
    /// Title of the single top-level window.
    pub window_title: String,
    /// Initial width of the window, in logical pixels.
    pub window_width: u32,
    /// Initial height of the window, in logical pixels.
    pub window_height: u32,
    /// Icon resources attached to the application, by resource id.
    pub icon_ids: Vec<u64>,
    /// Whether the bundled-asset root exists.
    pub bundle_root_exists: bool,
    /// Whether an entry document resolves inside the bundled-asset root.
    pub entry_document_resolvable: bool,
}

impl EmbeddingContext {
    /// A context can launch exactly when the bundled frontend is present and
    /// its entry document resolves.
    pub open spec fn is_launchable(self) -> bool {
        self.bundle_root_exists && self.entry_document_resolvable
    }

    /// Whether this context can launch.
    pub fn launchable(&self) -> (r: bool)
        ensures
            r == self.is_launchable(),
    {
        self.bundle_root_exists && self.entry_document_resolvable
    }
}

} // verus!
