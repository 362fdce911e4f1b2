//! Collecting the parameters of the application one by one.

use vstd::prelude::*;

verus! {

/// The parameters of the application, all of them present.
#[derive(Debug)]
pub struct ApplicationParameter {
    version: String,
    plugin_name: String,
    group_id: String,
}

/// What an `ApplicationParameter` stands for.
pub struct ApplicationParameterView {
    pub version: Seq<char>,
    pub plugin_name: Seq<char>,
    pub group_id: Seq<char>,
}

impl View for ApplicationParameter {
    type V = ApplicationParameterView;

    closed spec fn view(&self) -> ApplicationParameterView {
        ApplicationParameterView {
            version: self.version@,
            plugin_name: self.plugin_name@,
            group_id: self.group_id@,
        }
    }
}

impl ApplicationParameter {
    /// The version.
    pub fn version(&self) -> (version: &String)
        ensures
            version@ == self@.version,
    {
        &self.version
    }

    /// The name of the plugin.
    pub fn plugin_name(&self) -> (plugin_name: &String)
        ensures
            plugin_name@ == self@.plugin_name,
    {
        &self.plugin_name
    }

    /// The group.
    pub fn group_id(&self) -> (group_id: &String)
        ensures
            group_id@ == self@.group_id,
    {
        &self.group_id
    }
}

/// A builder that remembers each parameter until the parameters are built.
pub struct DefaultApplicationParameterBuilder {
    version: Option<String>,
    plugin_name: Option<String>,
    group_id: Option<String>,
}

/// What a builder must offer: a setter for each parameter, which can be
/// chained, and `build`, which hands the collected parameters out.
pub trait ApplicationParameterBuilder {
    type OutputType;

    /// Sets the version.
    fn set_version(&mut self, version: String) -> &mut Self;

    /// Sets the name of the plugin.
    fn set_plugin_name(&mut self, plugin_name: String) -> &mut Self;

    /// Sets the group.
    fn set_group_id(&mut self, group_id: String) -> &mut Self;

    /// Whether every parameter has been set.
    spec fn is_complete(&self) -> bool;

    /// Builds the parameters. Every parameter must have been set.
    fn build(&mut self) -> Self::OutputType
        requires
            old(self).is_complete(),
    ;
}

impl DefaultApplicationParameterBuilder {
    /// The version, if it has been set.
    pub closed spec fn pending_version(&self) -> Option<String> {
        self.version
    }

    /// The name of the plugin, if it has been set.
    pub closed spec fn pending_plugin_name(&self) -> Option<String> {
        self.plugin_name
    }

    /// The group, if it has been set.
    pub closed spec fn pending_group_id(&self) -> Option<String> {
        self.group_id
    }
}

impl Default for DefaultApplicationParameterBuilder {
    /// A builder on which nothing has been set.
    fn default() -> (builder: Self)
        ensures
            builder.pending_version() is None,
            builder.pending_plugin_name() is None,
            builder.pending_group_id() is None,
    {
        DefaultApplicationParameterBuilder { version: None, plugin_name: None, group_id: None }
    }
}

impl ApplicationParameterBuilder for DefaultApplicationParameterBuilder {
    type OutputType = ApplicationParameter;

    fn set_version(&mut self, version: String) -> (builder: &mut Self)
        ensures
            builder.pending_version() == Some(version),
            builder.pending_plugin_name() == old(self).pending_plugin_name(),
            builder.pending_group_id() == old(self).pending_group_id(),
            *final(self) == *final(builder),
    {
        self.version = Some(version);
        self
    }

    fn set_plugin_name(&mut self, plugin_name: String) -> (builder: &mut Self)
        ensures
            builder.pending_version() == old(self).pending_version(),
            builder.pending_plugin_name() == Some(plugin_name),
            builder.pending_group_id() == old(self).pending_group_id(),
            *final(self) == *final(builder),
    {
        self.plugin_name = Some(plugin_name);
        self
    }

    fn set_group_id(&mut self, group_id: String) -> (builder: &mut Self)
        ensures
            builder.pending_version() == old(self).pending_version(),
            builder.pending_plugin_name() == old(self).pending_plugin_name(),
            builder.pending_group_id() == Some(group_id),
            *final(self) == *final(builder),
    {
        self.group_id = Some(group_id);
        self
    }

    open spec fn is_complete(&self) -> bool {
        &&& self.pending_version() is Some
        &&& self.pending_plugin_name() is Some
        &&& self.pending_group_id() is Some
    }

    /// Hands the three parameters out and leaves the builder with nothing
    /// set.
    fn build(&mut self) -> (parameter: ApplicationParameter)
        ensures
            parameter@.version == old(self).pending_version()->0@,
            parameter@.plugin_name == old(self).pending_plugin_name()->0@,
            parameter@.group_id == old(self).pending_group_id()->0@,
            final(self).pending_version() is None,
            final(self).pending_plugin_name() is None,
            final(self).pending_group_id() is None,
    {
        ApplicationParameter {
            version: self.version.take().expect("Version is required"),
            plugin_name: self.plugin_name.take().expect("Plugin name is required"),
            group_id: self.group_id.take().expect("Group ID is required"),
        }
    }
}

} // verus!
