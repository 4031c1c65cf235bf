//! The description of a plugin and its runtime state.

use vstd::prelude::*;

verus! {

/// Mathematical model of a [`PluginConfiguration`].
pub struct PluginConfigurationView {
    pub name: Seq<char>,
    pub enabled: bool,
    pub exec_path: Seq<char>,
    pub socket_path: Seq<char>,
    pub arguments: Option<Seq<Seq<char>>>,
}

/// Mathematical model of a [`Plugin`].
pub struct PluginView {
    pub name: Seq<char>,
    pub enabled: bool,
    pub loaded: bool,
    pub exec_path: Seq<char>,
    pub socket_path: Seq<char>,
    pub arguments: Option<Seq<Seq<char>>>,
}

/// The configured description of one plugin.
#[derive(Debug)]
pub struct PluginConfiguration {
    /// Plugin's name, unique among the configured plugins.
    pub name: String,
    /// Whether the plugin takes part in a batch start.
    pub enabled: bool,
    /// Executable to run.
    pub exec_path: String,
    /// Path of the local socket the plugin listens on.
    pub socket_path: String,
    /// Arguments handed to the executable.
    pub arguments: Option<Vec<String>>,
}

/// A configured plugin together with what the manager knows of its process.
#[derive(Debug)]
pub struct Plugin {
    pub name: String,
    pub enabled: bool,
    /// Whether the manager has started a process for this plugin.
    pub loaded: bool,
    pub exec_path: String,
    pub socket_path: String,
    pub arguments: Option<Vec<String>>,
}

/// The model of an optional argument list.
pub open spec fn argument_views(arguments: Option<Vec<String>>) -> Option<Seq<Seq<char>>> {
    match arguments {
        Some(list) => Some(list@.map_values(|s: String| s@)),
        None => None,
    }
}

impl View for PluginConfiguration {
    type V = PluginConfigurationView;

    open spec fn view(&self) -> PluginConfigurationView {
        PluginConfigurationView {
            name: self.name@,
            enabled: self.enabled,
            exec_path: self.exec_path@,
            socket_path: self.socket_path@,
            arguments: argument_views(self.arguments),
        }
    }
}

impl View for Plugin {
    type V = PluginView;

    open spec fn view(&self) -> PluginView {
        PluginView {
            name: self.name@,
            enabled: self.enabled,
            loaded: self.loaded,
            exec_path: self.exec_path@,
            socket_path: self.socket_path@,
            arguments: argument_views(self.arguments),
        }
    }
}

/// The runtime state a configured plugin starts in: not loaded.
pub open spec fn fresh_plugin(config: PluginConfigurationView) -> PluginView {
    PluginView {
        name: config.name,
        enabled: config.enabled,
        loaded: false,
        exec_path: config.exec_path,
        socket_path: config.socket_path,
        arguments: config.arguments,
    }
}

/// The configuration that a plugin's runtime state was made from.
pub open spec fn configuration_of(plugin: PluginView) -> PluginConfigurationView {
    PluginConfigurationView {
        name: plugin.name,
        enabled: plugin.enabled,
        exec_path: plugin.exec_path,
        socket_path: plugin.socket_path,
        arguments: plugin.arguments,
    }
}

/// A plugin made from a configuration gives that configuration back.
pub proof fn lemma_configuration_round_trip(config: PluginConfigurationView)
    ensures
        configuration_of(fresh_plugin(config)) == config,
{
}

/// An independent copy of an optional argument list.
pub fn copy_arguments(arguments: &Option<Vec<String>>) -> (out: Option<Vec<String>>)
    ensures
        argument_views(out) == argument_views(*arguments),
{
    match arguments {
        None => None,
        Some(list) => {
            let mut copy: Vec<String> = Vec::new();
            let mut i: usize = 0;
            while i < list.len()
                invariant
                    i <= list.len(),
                    copy.len() == i,
                    forall|k: int| 0 <= k < i ==> copy@[k]@ == list@[k]@,
                decreases list.len() - i,
            {
                copy.push(list[i].clone());
                i += 1;
            }
            Some(copy)
        },
    }
}

impl From<Plugin> for PluginConfiguration {
    fn from(plugin: Plugin) -> (config: PluginConfiguration) {
        PluginConfiguration {
            name: plugin.name,
            enabled: plugin.enabled,
            exec_path: plugin.exec_path,
            socket_path: plugin.socket_path,
            arguments: plugin.arguments,
        }
    }
}

impl vstd::std_specs::convert::FromSpecImpl<Plugin> for PluginConfiguration {
    open spec fn obeys_from_spec() -> bool {
        true
    }

    open spec fn from_spec(plugin: Plugin) -> PluginConfiguration {
        PluginConfiguration {
            name: plugin.name,
            enabled: plugin.enabled,
            exec_path: plugin.exec_path,
            socket_path: plugin.socket_path,
            arguments: plugin.arguments,
        }
    }
}

impl From<PluginConfiguration> for Plugin {
    /// The plugin starts out not loaded.
    fn from(config: PluginConfiguration) -> (plugin: Plugin) {
        Plugin {
            name: config.name,
            enabled: config.enabled,
            loaded: false,
            exec_path: config.exec_path,
            socket_path: config.socket_path,
            arguments: config.arguments,
        }
    }
}

impl vstd::std_specs::convert::FromSpecImpl<PluginConfiguration> for Plugin {
    open spec fn obeys_from_spec() -> bool {
        true
    }

    open spec fn from_spec(config: PluginConfiguration) -> Plugin {
        Plugin {
            name: config.name,
            enabled: config.enabled,
            loaded: false,
            exec_path: config.exec_path,
            socket_path: config.socket_path,
            arguments: config.arguments,
        }
    }
}

/// The model of a plugin made by `From` is the fresh state of the
/// configuration's model.
pub proof fn lemma_from_configuration_view(config: PluginConfiguration)
    ensures
        <Plugin as vstd::std_specs::convert::FromSpec<PluginConfiguration>>::from_spec(config)@
            == fresh_plugin(config@),
{
}

impl Plugin {
    /// The runtime state of a configured plugin, not loaded, leaving the
    /// configuration in place.
    pub fn from_configuration(config: &PluginConfiguration) -> (plugin: Plugin)
        ensures
            plugin@ == fresh_plugin(config@),
    {
        Plugin {
            name: config.name.clone(),
            enabled: config.enabled,
            loaded: false,
            exec_path: config.exec_path.clone(),
            socket_path: config.socket_path.clone(),
            arguments: copy_arguments(&config.arguments),
        }
    }

    /// Records that a process was started for this plugin.
    pub fn mark_loaded(&mut self)
        ensures
            final(self)@ == (PluginView { loaded: true, ..old(self)@ }),
    {
        self.loaded = true;
    }

    /// Records that this plugin has no running process.
    pub fn mark_unloaded(&mut self)
        ensures
            final(self)@ == (PluginView { loaded: false, ..old(self)@ }),
    {
        self.loaded = false;
    }
}

} // verus!
