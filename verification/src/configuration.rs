//! The settings of a node.

use vstd::prelude::*;
use crate::utils::{decimal, decimal_string};

verus! {

/// The variable of the environment that names the file of the settings.
pub const CONFIGURATION_FILE_ENV_VARIABLE: &'static str = "NORONHA_CONFIGURATION_FILE";

/// The file of the settings where the environment names none.
pub const DEFAULT_CONFIGURATION_FILE: &'static str = "config/Noronha.toml";

/// The text of a network address: the host, a colon, and the port in decimal.
pub open spec fn address_text(host: Seq<char>, port: u32) -> Seq<char> {
    host + ":"@ + decimal(port as nat)
}

/// The text of a network address.
pub fn address(host: &str, port: u32) -> (text: String)
    ensures
        text@ == address_text(host@, port),
{
    let mut text = host.to_owned();
    text.append(":");
    text.append(decimal_string(port).as_str());
    text
}

/// The settings that a node is started with.
#[derive(Debug, PartialEq)]
pub struct Configuration {
    pub cluster_name: String,
    pub node_name: String,
    pub bind_host: String,
    pub publish_host: String,
    pub cluster_peers: Vec<String>,
    pub http_resources_port: u32,
    pub http_resources_workers: usize,
    pub http_transport_port: u32,
    pub http_transport_workers: usize,
    pub http_transport_pinger_connect_timeout: u64,
    pub http_transport_pinger_schedule: u64,
    pub log_config_file: String,
}

/// What the settings hold.
pub struct ConfigurationView {
    pub cluster_name: Seq<char>,
    pub node_name: Seq<char>,
    pub bind_host: Seq<char>,
    pub publish_host: Seq<char>,
    pub cluster_peers: Seq<Seq<char>>,
    pub http_resources_port: u32,
    pub http_resources_workers: usize,
    pub http_transport_port: u32,
    pub http_transport_workers: usize,
    pub http_transport_pinger_connect_timeout: u64,
    pub http_transport_pinger_schedule: u64,
    pub log_config_file: Seq<char>,
}

/// The texts of a list of strings, in order.
pub open spec fn texts(strings: Seq<String>) -> Seq<Seq<char>> {
    Seq::new(strings.len(), |i: int| strings[i]@)
}

impl View for Configuration {
    type V = ConfigurationView;

    open spec fn view(&self) -> ConfigurationView {
        ConfigurationView {
            cluster_name: self.cluster_name@,
            node_name: self.node_name@,
            bind_host: self.bind_host@,
            publish_host: self.publish_host@,
            cluster_peers: texts(self.cluster_peers@),
            http_resources_port: self.http_resources_port,
            http_resources_workers: self.http_resources_workers,
            http_transport_port: self.http_transport_port,
            http_transport_workers: self.http_transport_workers,
            http_transport_pinger_connect_timeout: self.http_transport_pinger_connect_timeout,
            http_transport_pinger_schedule: self.http_transport_pinger_schedule,
            log_config_file: self.log_config_file@,
        }
    }
}

/// A copy of a list of strings.
fn copy_strings(strings: &Vec<String>) -> (copy: Vec<String>)
    ensures
        texts(copy@) == texts(strings@),
{
    let mut copy: Vec<String> = Vec::new();
    let mut i: usize = 0;
    while i < strings.len()
        invariant
            i <= strings.len(),
            copy@.len() == i,
            forall|j: int| 0 <= j < i ==> copy@[j]@ == strings@[j]@,
        decreases strings.len() - i,
    {
        copy.push(strings[i].clone());
        i += 1;
    }
    copy
}

impl Clone for Configuration {
    fn clone(&self) -> (copy: Self)
        ensures
            copy@ == self@,
    {
        Configuration {
            cluster_name: self.cluster_name.clone(),
            node_name: self.node_name.clone(),
            bind_host: self.bind_host.clone(),
            publish_host: self.publish_host.clone(),
            cluster_peers: copy_strings(&self.cluster_peers),
            http_resources_port: self.http_resources_port,
            http_resources_workers: self.http_resources_workers,
            http_transport_port: self.http_transport_port,
            http_transport_workers: self.http_transport_workers,
            http_transport_pinger_connect_timeout: self.http_transport_pinger_connect_timeout,
            http_transport_pinger_schedule: self.http_transport_pinger_schedule,
            log_config_file: self.log_config_file.clone(),
        }
    }
}

impl Default for Configuration {
    fn default() -> (configuration: Self)
        ensures
            configuration@ == ConfigurationView::empty(),
    {
        let configuration = Configuration {
            cluster_name: String::new(),
            node_name: String::new(),
            bind_host: String::new(),
            publish_host: String::new(),
            cluster_peers: Vec::new(),
            http_resources_port: 0,
            http_resources_workers: 0,
            http_transport_port: 0,
            http_transport_workers: 0,
            http_transport_pinger_connect_timeout: 0,
            http_transport_pinger_schedule: 0,
            log_config_file: String::new(),
        };
        assert(configuration@.cluster_peers =~= Seq::empty());
        configuration
    }
}

impl ConfigurationView {
    /// The settings in which every text and list is empty and every number zero.
    pub open spec fn empty() -> ConfigurationView {
        ConfigurationView {
            cluster_name: Seq::empty(),
            node_name: Seq::empty(),
            bind_host: Seq::empty(),
            publish_host: Seq::empty(),
            cluster_peers: Seq::empty(),
            http_resources_port: 0,
            http_resources_workers: 0,
            http_transport_port: 0,
            http_transport_workers: 0,
            http_transport_pinger_connect_timeout: 0,
            http_transport_pinger_schedule: 0,
            log_config_file: Seq::empty(),
        }
    }
}

impl Configuration {
    /// The file from which the settings are read: the one that the
    /// environment names, if it names one.
    pub fn configuration_file(from_environment: Option<String>) -> (file: String)
        ensures
            file@ == match from_environment {
                Some(value) => value@,
                None => DEFAULT_CONFIGURATION_FILE@,
            },
    {
        match from_environment {
            Some(value) => value,
            None => DEFAULT_CONFIGURATION_FILE.to_owned(),
        }
    }

    /// The address under which the peers of the node reach it.
    pub fn node_address(&self) -> (text: String)
        ensures
            text@ == address_text(self@.publish_host, self@.http_transport_port),
    {
        address(self.publish_host.as_str(), self.http_transport_port)
    }

    /// The address at which the node listens to its users.
    pub fn http_resources_address(&self) -> (text: String)
        ensures
            text@ == address_text(self@.bind_host, self@.http_resources_port),
    {
        address(self.bind_host.as_str(), self.http_resources_port)
    }

    /// The address at which the node listens to its peers.
    pub fn http_transport_address(&self) -> (text: String)
        ensures
            text@ == address_text(self@.bind_host, self@.http_transport_port),
    {
        address(self.bind_host.as_str(), self.http_transport_port)
    }

    /// A copy of the settings, for a reader to keep.
    pub fn read(&self) -> (copy: Self)
        ensures
            copy@ == self@,
    {
        self.clone()
    }

    /// The settings themselves, to be changed in place: what the borrower
    /// leaves behind is what the settings are afterwards.
    pub fn write(&mut self) -> (settings: &mut Self)
        ensures
            *settings == *old(self),
            *final(self) == *final(settings),
    {
        self
    }

    /// The settings themselves, to be read in place.
    pub fn get(&self) -> (settings: &Self)
        ensures
            *settings == *self,
    {
        self
    }
}

} // verus!
