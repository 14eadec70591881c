//! The settings that all web views of a process share.
use vstd::prelude::*;
use crate::text::{copy_opt, opt_view};

verus! {

/// The shared settings.
pub struct Settings {
    /// Where the render server is; fixed once it is known.
    pub verso_path: Option<String>,
    pub resource_directory: Option<String>,
    /// 0 asks for any free port.
    pub devtools_port: Option<u16>,
}

/// View of [`Settings`].
pub struct SettingsView {
    pub verso_path: Option<Seq<char>>,
    pub resource_directory: Option<Seq<char>>,
    pub devtools_port: Option<u16>,
}

impl View for Settings {
    type V = SettingsView;

    open spec fn view(&self) -> SettingsView {
        SettingsView {
            verso_path: opt_view(self.verso_path),
            resource_directory: opt_view(self.resource_directory),
            devtools_port: self.devtools_port,
        }
    }
}

impl Settings {
    /// Nothing is set.
    pub fn new() -> (s: Self)
        ensures
            s@ == (SettingsView { verso_path: None, resource_directory: None, devtools_port: None }),
    {
        Settings { verso_path: None, resource_directory: None, devtools_port: None }
    }

    /// Sets where the render server is.  It can be set once, and only before it was asked for.
    pub fn set_verso_path(&mut self, path: &str)
        requires
            old(self).verso_path is None,
        ensures
            final(self)@ == (SettingsView { verso_path: Some(path@), ..old(self)@ }),
    {
        self.verso_path = Some(path.to_owned());
    }

    /// Where the render server is: what was set, else `beside`, the server beside the program,
    /// which is then fixed.
    pub fn get_verso_path(&mut self, beside: &Option<String>) -> (p: String)
        requires
            old(self).verso_path is Some || beside is Some,
        ensures
            p@ == (match old(self)@.verso_path {
                Some(p) => p,
                None => beside->0@,
            }),
            final(self)@ == (SettingsView { verso_path: Some(p@), ..old(self)@ }),
    {
        let path = match &self.verso_path {
            Some(p) => p.clone(),
            None => match beside {
                Some(p) => p.clone(),
                None => String::new(),
            },
        };
        self.verso_path = Some(path.clone());
        path
    }

    /// Sets the directory of resources for web views that are created from now on.
    pub fn set_verso_resource_directory(&mut self, path: &str)
        ensures
            final(self)@ == (SettingsView { resource_directory: Some(path@), ..old(self)@ }),
    {
        self.resource_directory = Some(path.to_owned());
    }

    /// The directory of resources, if it is set.
    pub fn get_verso_resource_directory(&self) -> (p: Option<String>)
        ensures
            opt_view(p) == self@.resource_directory,
    {
        copy_opt(&self.resource_directory)
    }

    /// Sets the port of the developer tools for web views that are created from now on.
    pub fn set_verso_devtools_port(&mut self, port: u16)
        ensures
            final(self)@ == (SettingsView { devtools_port: Some(port), ..old(self)@ }),
    {
        self.devtools_port = Some(port);
    }

    /// The port of the developer tools, if it is set.
    pub fn get_verso_devtools_port(&self) -> (p: Option<u16>)
        ensures
            p == self@.devtools_port,
    {
        self.devtools_port
    }
}

} // verus!
