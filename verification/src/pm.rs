//! The plugin manager: the registry of plugins and the decisions of their
//! lifecycle.
//!
//! The manager decides; the embedding program acts. A start hands back the
//! launch requests to spawn, a stop hands back the termination requests to
//! send, and what the program observed (which executables exist, which sends
//! failed) comes in as plain values.

use vstd::prelude::*;
use crate::config::Configuration;
use crate::plugin::{
    Plugin, PluginConfigurationView, PluginView, argument_views, copy_arguments, fresh_plugin,
};
use crate::protocol::{ControlMessage, wire_text};
use crate::text::optional_text;

verus! {

/// What can go wrong in the manager.
#[derive(Debug)]
pub enum PluginManagerError {
    /// No plugin of this name is in the configuration.
    PluginNotFoundInConfiguration(String),
    /// No default plugin is configured and no plugin is enabled.
    NotEvenOneEnabledPlugin,
    /// The executable of the plugin of this name does not exist.
    ExecNotFound(String),
    /// The socket of the plugin of this name could not be reached; the
    /// second field holds the cause.
    SocketError(String, String),
}

/// Mathematical model of a [`PluginManagerError`].
pub enum PluginManagerErrorView {
    PluginNotFoundInConfiguration(Seq<char>),
    NotEvenOneEnabledPlugin,
    ExecNotFound(Seq<char>),
    SocketError(Seq<char>, Seq<char>),
}

impl View for PluginManagerError {
    type V = PluginManagerErrorView;

    open spec fn view(&self) -> PluginManagerErrorView {
        match self {
            PluginManagerError::PluginNotFoundInConfiguration(name) => {
                PluginManagerErrorView::PluginNotFoundInConfiguration(name@)
            },
            PluginManagerError::NotEvenOneEnabledPlugin => {
                PluginManagerErrorView::NotEvenOneEnabledPlugin
            },
            PluginManagerError::ExecNotFound(name) => PluginManagerErrorView::ExecNotFound(name@),
            PluginManagerError::SocketError(name, cause) => PluginManagerErrorView::SocketError(
                name@,
                cause@,
            ),
        }
    }
}

/// The models of a sequence of errors, position by position.
pub open spec fn error_views(errors: Seq<PluginManagerError>) -> Seq<PluginManagerErrorView> {
    errors.map_values(|e: PluginManagerError| e@)
}

/// Mathematical model of a [`LaunchRequest`].
pub struct LaunchRequestView {
    pub name: Seq<char>,
    pub exec_path: Seq<char>,
    pub arguments: Option<Seq<Seq<char>>>,
}

/// The order to spawn one plugin's executable with its arguments.
#[derive(Debug)]
pub struct LaunchRequest {
    pub name: String,
    pub exec_path: String,
    pub arguments: Option<Vec<String>>,
}

impl View for LaunchRequest {
    type V = LaunchRequestView;

    open spec fn view(&self) -> LaunchRequestView {
        LaunchRequestView {
            name: self.name@,
            exec_path: self.exec_path@,
            arguments: argument_views(self.arguments),
        }
    }
}

/// The models of a sequence of launch requests, position by position.
pub open spec fn launch_views(requests: Seq<LaunchRequest>) -> Seq<LaunchRequestView> {
    requests.map_values(|r: LaunchRequest| r@)
}

/// Mathematical model of a [`TerminateRequest`].
pub struct TerminateRequestView {
    pub name: Seq<char>,
    pub socket_path: Seq<char>,
    pub payload: Seq<char>,
}

/// The order to connect to one plugin's socket, write the payload and close
/// the write side.
#[derive(Debug)]
pub struct TerminateRequest {
    pub name: String,
    pub socket_path: String,
    pub payload: String,
}

impl View for TerminateRequest {
    type V = TerminateRequestView;

    open spec fn view(&self) -> TerminateRequestView {
        TerminateRequestView {
            name: self.name@,
            socket_path: self.socket_path@,
            payload: self.payload@,
        }
    }
}

/// The model of an optional termination request.
pub open spec fn optional_terminate_view(request: Option<TerminateRequest>) -> Option<
    TerminateRequestView,
> {
    match request {
        Some(r) => Some(r@),
        None => None,
    }
}

/// What a batch start decided: the processes to spawn and one error for each
/// enabled plugin that cannot be spawned.
#[derive(Debug)]
pub struct StartBatch {
    pub launches: Vec<LaunchRequest>,
    pub errors: Vec<PluginManagerError>,
}

/// Mathematical model of a [`PluginManager`]: the default plugin's name and
/// the plugins, each name once, in the order in which the names first
/// occurred in the configuration.
pub struct PluginManagerView {
    pub default_plugin: Seq<char>,
    pub plugins: Seq<PluginView>,
}

/// The registry of plugins and the name of the default one.
#[derive(Debug)]
pub struct PluginManager {
    pub default_plugin: String,
    pub plugins: Vec<Plugin>,
}

/// The models of a sequence of plugins, position by position.
pub open spec fn plugin_views(plugins: Seq<Plugin>) -> Seq<PluginView> {
    plugins.map_values(|p: Plugin| p@)
}

impl View for PluginManager {
    type V = PluginManagerView;

    open spec fn view(&self) -> PluginManagerView {
        PluginManagerView {
            default_plugin: self.default_plugin@,
            plugins: plugin_views(self.plugins@),
        }
    }
}

/// Whether some plugin of the sequence has the given name.
pub open spec fn has_name(plugins: Seq<PluginView>, name: Seq<char>) -> bool {
    exists|i: int| 0 <= i < plugins.len() && (#[trigger] plugins[i]).name == name
}

/// Whether the given name stands at a position and at none before it.
pub open spec fn is_first_position(plugins: Seq<PluginView>, name: Seq<char>, i: int) -> bool {
    &&& 0 <= i < plugins.len()
    &&& plugins[i].name == name
    &&& forall|j: int| 0 <= j < i ==> (#[trigger] plugins[j]).name != name
}

/// The first position at which the given name stands; the only one where
/// names are unique. Meaningful where `has_name` holds.
pub open spec fn position_of(plugins: Seq<PluginView>, name: Seq<char>) -> int {
    choose|i: int| is_first_position(plugins, name, i)
}

/// A first position of a name is its `position_of`.
pub proof fn lemma_position_of(plugins: Seq<PluginView>, name: Seq<char>, i: int)
    requires
        is_first_position(plugins, name, i),
    ensures
        position_of(plugins, name) == i,
{
    let at = position_of(plugins, name);
    if i < at {
        assert(plugins[i].name != name);
    }
}

/// Where names are unique, the position of a name is wherever it stands.
pub proof fn lemma_unique_position(plugins: Seq<PluginView>, name: Seq<char>, i: int)
    requires
        names_unique(plugins),
        0 <= i < plugins.len(),
        plugins[i].name == name,
    ensures
        position_of(plugins, name) == i,
{
    lemma_position_of(plugins, name, i);
}

/// No name occurs twice.
pub open spec fn names_unique(plugins: Seq<PluginView>) -> bool {
    forall|i: int, j: int|
        0 <= i < j < plugins.len() ==> (#[trigger] plugins[i]).name != (#[trigger] plugins[j]).name
}

/// The plugin as it is once a process was started for it.
pub open spec fn loaded_plugin(plugin: PluginView) -> PluginView {
    PluginView { loaded: true, ..plugin }
}

/// The plugin as it is once its process has ended.
pub open spec fn unloaded_plugin(plugin: PluginView) -> PluginView {
    PluginView { loaded: false, ..plugin }
}

/// The launch request of a plugin.
pub open spec fn launch_of(plugin: PluginView) -> LaunchRequestView {
    LaunchRequestView {
        name: plugin.name,
        exec_path: plugin.exec_path,
        arguments: plugin.arguments,
    }
}

/// The termination request of a plugin.
pub open spec fn terminate_of(plugin: PluginView) -> TerminateRequestView {
    TerminateRequestView {
        name: plugin.name,
        socket_path: plugin.socket_path,
        payload: wire_text(ControlMessage::Terminate),
    }
}

/// The name of the first enabled plugin in declaration order, if any.
pub open spec fn first_enabled(configs: Seq<PluginConfigurationView>) -> Option<Seq<char>>
    decreases configs.len(),
{
    if configs.len() == 0 {
        None
    } else {
        match first_enabled(configs.drop_last()) {
            Some(name) => Some(name),
            None => if configs.last().enabled {
                Some(configs.last().name)
            } else {
                None
            },
        }
    }
}

/// The default plugin that a configuration resolves to: the configured one
/// if there is one, else the first enabled plugin.
pub open spec fn resolved_default(
    default_plugin: Option<Seq<char>>,
    configs: Seq<PluginConfigurationView>,
) -> Option<Seq<char>> {
    match default_plugin {
        Some(name) => Some(name),
        None => first_enabled(configs),
    }
}

/// The registry that a configuration gives: every plugin not loaded; a name
/// that is configured again keeps its place and takes the later description.
pub open spec fn registry_of(configs: Seq<PluginConfigurationView>) -> Seq<PluginView>
    decreases configs.len(),
{
    if configs.len() == 0 {
        Seq::empty()
    } else {
        let before = registry_of(configs.drop_last());
        let plugin = fresh_plugin(configs.last());
        if has_name(before, plugin.name) {
            before.update(position_of(before, plugin.name), plugin)
        } else {
            before.push(plugin)
        }
    }
}

/// Whether the executable of the plugin at a position was seen to exist.
/// A position that the probe does not cover counts as not seen.
pub open spec fn seen(present: Seq<bool>, i: int) -> bool {
    0 <= i < present.len() && present[i]
}

/// The plugin at a position after a batch start.
pub open spec fn after_batch_start(plugin: PluginView, present: bool) -> PluginView {
    if plugin.enabled && present {
        loaded_plugin(plugin)
    } else {
        plugin
    }
}

/// The launch requests of a batch start: one for each enabled plugin whose
/// executable was seen, in registry order.
pub open spec fn batch_launches(plugins: Seq<PluginView>, present: Seq<bool>) -> Seq<
    LaunchRequestView,
>
    decreases plugins.len(),
{
    if plugins.len() == 0 {
        Seq::empty()
    } else {
        let before = batch_launches(plugins.drop_last(), present);
        let plugin = plugins.last();
        if plugin.enabled && seen(present, plugins.len() - 1) {
            before.push(launch_of(plugin))
        } else {
            before
        }
    }
}

/// The errors of a batch start: one for each enabled plugin whose executable
/// was not seen, in registry order.
pub open spec fn batch_start_errors(plugins: Seq<PluginView>, present: Seq<bool>) -> Seq<
    PluginManagerErrorView,
>
    decreases plugins.len(),
{
    if plugins.len() == 0 {
        Seq::empty()
    } else {
        let before = batch_start_errors(plugins.drop_last(), present);
        let plugin = plugins.last();
        if plugin.enabled && !seen(present, plugins.len() - 1) {
            before.push(PluginManagerErrorView::ExecNotFound(plugin.name))
        } else {
            before
        }
    }
}

/// How many plugins are enabled.
pub open spec fn enabled_count(plugins: Seq<PluginView>) -> nat
    decreases plugins.len(),
{
    if plugins.len() == 0 {
        0
    } else {
        enabled_count(plugins.drop_last()) + if plugins.last().enabled {
            1nat
        } else {
            0nat
        }
    }
}

/// How many enabled plugins have an executable that was not seen.
pub open spec fn missing_count(plugins: Seq<PluginView>, present: Seq<bool>) -> nat
    decreases plugins.len(),
{
    if plugins.len() == 0 {
        0
    } else {
        missing_count(plugins.drop_last(), present) + if plugins.last().enabled && !seen(
            present,
            plugins.len() - 1,
        ) {
            1nat
        } else {
            0nat
        }
    }
}

/// The models of a sequence of send outcomes, position by position: the
/// cause where a send failed.
pub open spec fn outcome_views(outcomes: Seq<Option<String>>) -> Seq<Option<Seq<char>>> {
    outcomes.map_values(|o: Option<String>| optional_text(o))
}

/// The failure that was observed for the plugin at a position, if any.
/// A position that the outcomes do not cover counts as no failure.
pub open spec fn failure_at(outcomes: Seq<Option<Seq<char>>>, i: int) -> Option<Seq<char>> {
    if 0 <= i < outcomes.len() {
        outcomes[i]
    } else {
        None
    }
}

/// The errors of a batch stop: one for each loaded plugin for which a
/// failure was observed, in registry order.
pub open spec fn batch_exit_errors(plugins: Seq<PluginView>, outcomes: Seq<Option<Seq<char>>>) -> Seq<
    PluginManagerErrorView,
>
    decreases plugins.len(),
{
    if plugins.len() == 0 {
        Seq::empty()
    } else {
        let before = batch_exit_errors(plugins.drop_last(), outcomes);
        let plugin = plugins.last();
        match failure_at(outcomes, plugins.len() - 1) {
            Some(cause) => if plugin.loaded {
                before.push(PluginManagerErrorView::SocketError(plugin.name, cause))
            } else {
                before
            },
            None => before,
        }
    }
}

/// How many plugins are loaded.
pub open spec fn loaded_count(plugins: Seq<PluginView>) -> nat
    decreases plugins.len(),
{
    if plugins.len() == 0 {
        0
    } else {
        loaded_count(plugins.drop_last()) + if plugins.last().loaded {
            1nat
        } else {
            0nat
        }
    }
}

/// How many loaded plugins have an observed failure.
pub open spec fn unreachable_count(
    plugins: Seq<PluginView>,
    outcomes: Seq<Option<Seq<char>>>,
) -> nat
    decreases plugins.len(),
{
    if plugins.len() == 0 {
        0
    } else {
        unreachable_count(plugins.drop_last(), outcomes) + if plugins.last().loaded && failure_at(
            outcomes,
            plugins.len() - 1,
        ) is Some {
            1nat
        } else {
            0nat
        }
    }
}

/// Looks a name up in a list of plugins and gives the first position at
/// which it stands.
pub fn find_plugin(plugins: &Vec<Plugin>, name: &String) -> (found: Option<usize>)
    ensures
        match found {
            Some(i) => {
                &&& i < plugins.len()
                &&& plugins@[i as int]@.name == name@
                &&& has_name(plugin_views(plugins@), name@)
                &&& forall|k: int| 0 <= k < i ==> (#[trigger] plugins@[k])@.name != name@
                &&& position_of(plugin_views(plugins@), name@) == i
            },
            None => !has_name(plugin_views(plugins@), name@),
        },
{
    let ghost views = plugin_views(plugins@);
    let mut i: usize = 0;
    while i < plugins.len()
        invariant
            i <= plugins.len(),
            views == plugin_views(plugins@),
            forall|k: int| 0 <= k < i ==> (#[trigger] views[k]).name != name@,
        decreases plugins.len() - i,
    {
        if plugins[i].name == *name {
            proof {
                assert(views[i as int].name == name@);
                assert forall|k: int| 0 <= k < i implies (#[trigger] plugins@[k])@.name
                    != name@ by {
                    assert(views[k] == plugins@[k]@);
                }
                lemma_position_of(views, name@, i as int);
            }
            return Some(i);
        }
        i += 1;
    }
    None
}

/// The launch request of a plugin.
pub fn launch_request(plugin: &Plugin) -> (request: LaunchRequest)
    ensures
        request@ == launch_of(plugin@),
{
    LaunchRequest {
        name: plugin.name.clone(),
        exec_path: plugin.exec_path.clone(),
        arguments: copy_arguments(&plugin.arguments),
    }
}

/// The termination request of a plugin: its socket and the wire text of
/// `Terminate`.
pub fn terminate_request(plugin: &Plugin) -> (request: TerminateRequest)
    ensures
        request@ == terminate_of(plugin@),
{
    TerminateRequest {
        name: plugin.name.clone(),
        socket_path: plugin.socket_path.clone(),
        payload: ControlMessage::Terminate.encode(),
    }
}

impl StartBatch {
    /// Whether every enabled plugin could be started.
    pub fn is_success(&self) -> (success: bool)
        ensures
            success == (self.errors@.len() == 0),
    {
        self.errors.len() == 0
    }
}

impl PluginManager {
    /// Every plugin name stands once in the registry.
    pub open spec fn wf(&self) -> bool {
        names_unique(self@.plugins)
    }

    /// Builds the manager of a configuration. The default plugin is the
    /// configured one if there is one, else the first enabled plugin; with
    /// neither there is no manager.
    pub fn from_configuration(configuration: Configuration) -> (result: Result<
        PluginManager,
        PluginManagerError,
    >)
        ensures
            match resolved_default(configuration@.default_plugin, configuration@.plugins) {
                Some(name) => match result {
                    Ok(pm) => pm.wf() && pm@ == (PluginManagerView {
                        default_plugin: name,
                        plugins: registry_of(configuration@.plugins),
                    }),
                    Err(_) => false,
                },
                None => result matches Err(PluginManagerError::NotEvenOneEnabledPlugin),
            },
    {
        let ghost configs = configuration@.plugins;
        let mut plugins: Vec<Plugin> = Vec::new();
        let mut first: Option<String> = None;
        let mut i: usize = 0;
        while i < configuration.plugins.len()
            invariant
                i <= configuration.plugins.len(),
                configs == configuration@.plugins,
                plugin_views(plugins@) =~= registry_of(configs.take(i as int)),
                names_unique(plugin_views(plugins@)),
                optional_text(first) == first_enabled(configs.take(i as int)),
            decreases configuration.plugins.len() - i,
        {
            let config = &configuration.plugins[i];
            assert(configs.take(i + 1).drop_last() =~= configs.take(i as int));
            assert(configs.take(i + 1).last() == config@);
            if first.is_none() && config.enabled {
                first = Some(config.name.clone());
            }
            let plugin = Plugin::from_configuration(config);
            let ghost before = plugins@;
            match find_plugin(&plugins, &plugin.name) {
                Some(k) => {
                    plugins[k] = plugin;
                    assert(plugin_views(plugins@) =~= plugin_views(before).update(
                        k as int,
                        plugin@,
                    ));
                    assert forall|a: int, b: int|
                        0 <= a < b < plugins@.len() implies (#[trigger] plugin_views(
                        plugins@,
                    )[a]).name != (#[trigger] plugin_views(plugins@)[b]).name by {
                        assert(plugin_views(before)[a].name != plugin_views(before)[b].name);
                    }
                },
                None => {
                    plugins.push(plugin);
                    assert(plugin_views(plugins@) =~= plugin_views(before).push(plugin@));
                },
            }
            i += 1;
        }
        assert(configs.take(i as int) =~= configs);
        match configuration.default_plugin {
            Some(name) => Ok(PluginManager { default_plugin: name, plugins }),
            None => match first {
                Some(name) => Ok(PluginManager { default_plugin: name, plugins }),
                None => Err(PluginManagerError::NotEvenOneEnabledPlugin),
            },
        }
    }

    /// The position of the plugin of a name, if it is in the registry.
    pub fn find(&self, name: &String) -> (found: Option<usize>)
        ensures
            match found {
                Some(i) => {
                    &&& i < self.plugins.len()
                    &&& has_name(self@.plugins, name@)
                    &&& self@.plugins[i as int].name == name@
                    &&& position_of(self@.plugins, name@) == i
                },
                None => !has_name(self@.plugins, name@),
            },
    {
        find_plugin(&self.plugins, name)
    }

    /// Whether a plugin of this name is in the registry.
    pub fn has_plugin(&self, name: &String) -> (has: bool)
        ensures
            has == has_name(self@.plugins, name@),
    {
        find_plugin(&self.plugins, name).is_some()
    }

    /// Whether the default plugin's name is in the registry.
    pub fn has_default_plugin(&self) -> (has: bool)
        ensures
            has == has_name(self@.plugins, self@.default_plugin),
    {
        find_plugin(&self.plugins, &self.default_plugin).is_some()
    }

    /// The plugin that the default name stands for.
    pub fn get_default_plugin(&self) -> (plugin: &Plugin)
        requires
            has_name(self@.plugins, self@.default_plugin),
        ensures
            plugin@ == self@.plugins[position_of(self@.plugins, self@.default_plugin)],
            plugin@.name == self@.default_plugin,
    {
        match find_plugin(&self.plugins, &self.default_plugin) {
            Some(i) => &self.plugins[i],
            None => vstd::pervasive::unreached(),
        }
    }

    /// Decides the start of one plugin. `executable_present` says whether the
    /// plugin's executable was seen to exist; it is read only where the
    /// plugin is in the registry. On success the plugin is marked loaded and
    /// the request to spawn it is handed back.
    pub fn start_plugin(&mut self, name: String, executable_present: bool) -> (result: Result<
        LaunchRequest,
        PluginManagerError,
    >)
        ensures
            old(self).wf() ==> final(self).wf(),
            final(self)@.default_plugin == old(self)@.default_plugin,
            !has_name(old(self)@.plugins, name@) ==> match result {
                Err(e) => e@ == PluginManagerErrorView::PluginNotFoundInConfiguration(name@)
                    && final(self)@ == old(self)@,
                Ok(_) => false,
            },
            has_name(old(self)@.plugins, name@) && !executable_present ==> match result {
                Err(e) => e@ == PluginManagerErrorView::ExecNotFound(name@) && final(self)@ == old(self)@,
                Ok(_) => false,
            },
            has_name(old(self)@.plugins, name@) && executable_present ==> match result {
                Ok(request) => {
                    let at = position_of(old(self)@.plugins, name@);
                    &&& request@ == launch_of(old(self)@.plugins[at])
                    &&& final(self)@.plugins == old(self)@.plugins.update(
                        at,
                        loaded_plugin(old(self)@.plugins[at]),
                    )
                },
                Err(_) => false,
            },
    {
        match find_plugin(&self.plugins, &name) {
            None => Err(PluginManagerError::PluginNotFoundInConfiguration(name)),
            Some(i) => {
                if !executable_present {
                    return Err(PluginManagerError::ExecNotFound(name));
                }
                let ghost before = self.plugins@;
                let request = launch_request(&self.plugins[i]);
                self.plugins[i].mark_loaded();
                assert(plugin_views(self.plugins@) =~= plugin_views(before).update(
                    i as int,
                    loaded_plugin(before[i as int]@),
                ));
                Ok(request)
            },
        }
    }

    /// Records that the process of a plugin has ended, so that the plugin
    /// can be started again. Says whether the name is in the registry; an
    /// unknown name changes nothing.
    pub fn plugin_exited(&mut self, name: &String) -> (known: bool)
        ensures
            old(self).wf() ==> final(self).wf(),
            final(self)@.default_plugin == old(self)@.default_plugin,
            known == has_name(old(self)@.plugins, name@),
            known ==> final(self)@.plugins == old(self)@.plugins.update(
                position_of(old(self)@.plugins, name@),
                unloaded_plugin(old(self)@.plugins[position_of(old(self)@.plugins, name@)]),
            ),
            !known ==> final(self)@ == old(self)@,
    {
        match find_plugin(&self.plugins, name) {
            None => false,
            Some(i) => {
                let ghost before = self.plugins@;
                self.plugins[i].mark_unloaded();
                assert(plugin_views(self.plugins@) =~= plugin_views(before).update(
                    i as int,
                    unloaded_plugin(before[i as int]@),
                ));
                true
            },
        }
    }

    /// Decides the start of every enabled plugin. `present[i]` says whether
    /// the executable of the plugin at position `i` was seen to exist. Each
    /// enabled plugin with its executable in place is marked loaded and gets
    /// a launch request; each other enabled plugin gets one error and stays
    /// as it was. One missing executable holds back no other plugin.
    pub fn start_enabled_plugins(&mut self, present: &Vec<bool>) -> (batch: StartBatch)
        ensures
            old(self).wf() ==> final(self).wf(),
            final(self)@.default_plugin == old(self)@.default_plugin,
            final(self)@.plugins =~= Seq::new(
                old(self)@.plugins.len(),
                |i: int| after_batch_start(old(self)@.plugins[i], seen(present@, i)),
            ),
            launch_views(batch.launches@) == batch_launches(old(self)@.plugins, present@),
            error_views(batch.errors@) == batch_start_errors(old(self)@.plugins, present@),
    {
        let ghost before = self@.plugins;
        let mut launches: Vec<LaunchRequest> = Vec::new();
        let mut errors: Vec<PluginManagerError> = Vec::new();
        let mut i: usize = 0;
        while i < self.plugins.len()
            invariant
                i <= self.plugins.len(),
                self.plugins.len() == before.len(),
                self@.default_plugin == old(self)@.default_plugin,
                before == old(self)@.plugins,
                forall|k: int|
                    0 <= k < i ==> (#[trigger] self@.plugins[k]) == after_batch_start(
                        before[k],
                        seen(present@, k),
                    ),
                forall|k: int| i <= k < before.len() ==> (#[trigger] self@.plugins[k]) == before[k],
                launch_views(launches@) =~= batch_launches(before.take(i as int), present@),
                error_views(errors@) =~= batch_start_errors(before.take(i as int), present@),
            decreases self.plugins.len() - i,
        {
            assert(before.take(i + 1).drop_last() =~= before.take(i as int));
            assert(self@.plugins[i as int] == before[i as int]);
            if self.plugins[i].enabled {
                if i < present.len() && present[i] {
                    let ghost old_plugins = self.plugins@;
                    let request = launch_request(&self.plugins[i]);
                    launches.push(request);
                    self.plugins[i].mark_loaded();
                    assert(plugin_views(self.plugins@) =~= plugin_views(old_plugins).update(
                        i as int,
                        loaded_plugin(old_plugins[i as int]@),
                    ));
                } else {
                    let error = PluginManagerError::ExecNotFound(self.plugins[i].name.clone());
                    errors.push(error);
                }
            }
            i += 1;
        }
        assert(before.take(i as int) =~= before);
        StartBatch { launches, errors }
    }

    /// Decides the stop of one plugin: the request to send `Terminate` to
    /// its socket. The registry stays as it is.
    pub fn exit_one(&mut self, name: String) -> (result: Result<
        TerminateRequest,
        PluginManagerError,
    >)
        ensures
            *final(self) == *old(self),
            match result {
                Ok(request) => has_name(old(self)@.plugins, name@) && request@ == terminate_of(
                    old(self)@.plugins[position_of(old(self)@.plugins, name@)],
                ),
                Err(e) => !has_name(old(self)@.plugins, name@) && e@
                    == PluginManagerErrorView::PluginNotFoundInConfiguration(name@),
            },
    {
        match find_plugin(&self.plugins, &name) {
            Some(i) => Ok(terminate_request(&self.plugins[i])),
            None => Err(PluginManagerError::PluginNotFoundInConfiguration(name)),
        }
    }

    /// The termination requests of a batch stop, position by position: one
    /// for each loaded plugin, none for a plugin that is not loaded.
    pub fn exit_requests(&self) -> (requests: Vec<Option<TerminateRequest>>)
        ensures
            requests@.len() == self@.plugins.len(),
            forall|i: int|
                0 <= i < requests@.len() ==> optional_terminate_view(#[trigger] requests@[i]) == (
                if self@.plugins[i].loaded {
                    Some(terminate_of(self@.plugins[i]))
                } else {
                    None
                }),
    {
        let mut requests: Vec<Option<TerminateRequest>> = Vec::new();
        let mut i: usize = 0;
        while i < self.plugins.len()
            invariant
                i <= self.plugins.len(),
                requests@.len() == i,
                forall|k: int|
                    0 <= k < i ==> optional_terminate_view(#[trigger] requests@[k]) == (
                    if self@.plugins[k].loaded {
                        Some(terminate_of(self@.plugins[k]))
                    } else {
                        None
                    }),
            decreases self.plugins.len() - i,
        {
            if self.plugins[i].loaded {
                requests.push(Some(terminate_request(&self.plugins[i])));
            } else {
                requests.push(None);
            }
            i += 1;
        }
        requests
    }

    /// Collects the result of a batch stop. `outcomes[i]` holds the cause
    /// where sending `Terminate` to the plugin at position `i` failed. Each
    /// loaded plugin with a failure gives one error; a plugin that is not
    /// loaded gives none.
    pub fn exit_all(&self, outcomes: &Vec<Option<String>>) -> (result: Result<
        (),
        Vec<PluginManagerError>,
    >)
        ensures
            match result {
                Ok(_) => batch_exit_errors(self@.plugins, outcome_views(outcomes@)).len() == 0,
                Err(errors) => errors@.len() > 0 && error_views(errors@) == batch_exit_errors(
                    self@.plugins,
                    outcome_views(outcomes@),
                ),
            },
    {
        let ghost plugins = self@.plugins;
        let ghost observed = outcome_views(outcomes@);
        let mut errors: Vec<PluginManagerError> = Vec::new();
        let mut i: usize = 0;
        while i < self.plugins.len()
            invariant
                i <= self.plugins.len(),
                plugins == self@.plugins,
                observed == outcome_views(outcomes@),
                error_views(errors@) =~= batch_exit_errors(plugins.take(i as int), observed),
            decreases self.plugins.len() - i,
        {
            assert(plugins.take(i + 1).drop_last() =~= plugins.take(i as int));
            if self.plugins[i].loaded && i < outcomes.len() {
                match &outcomes[i] {
                    Some(cause) => {
                            let error = PluginManagerError::SocketError(
                            self.plugins[i].name.clone(),
                            cause.clone(),
                        );
                        errors.push(error);
                    },
                    None => {},
                }
            }
            i += 1;
        }
        assert(plugins.take(i as int) =~= plugins);
        if errors.len() > 0 {
            Err(errors)
        } else {
            Ok(())
        }
    }
}

} // verus!
