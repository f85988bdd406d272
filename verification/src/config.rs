//! Configuration of the bridge: the broker, the naming of the advertised
//! devices, and what is known of each thermometer by its address.

use crate::text::hex_byte_text;
use crate::text::push_hex_byte;
use std::collections::HashMap;
use vstd::prelude::*;
use vstd::std_specs::hash::group_hash_axioms;
use vstd::string::StringExecFns;

verus! {

broadcast use group_hash_axioms;

/// How to reach the MQTT broker.
#[derive(Clone, Debug)]
pub struct MqttConfig {
    pub host: String,
    pub port: u16,
    pub use_tls: bool,
    pub username: Option<String>,
    pub password: Option<String>,
    pub client_prefix: String,
}

impl Default for MqttConfig {
    fn default() -> (config: MqttConfig)
        ensures
            config.host@ == "test.mosquitto.org"@,
            config.port == 1883,
            !config.use_tls,
            config.username is None,
            config.password is None,
            config.client_prefix@ == "cloudbbq"@,
    {
        MqttConfig {
            host: "test.mosquitto.org".to_owned(),
            port: 1883,
            use_tls: false,
            username: None,
            password: None,
            client_prefix: "cloudbbq".to_owned(),
        }
    }
}

/// Under which names the thermometers are advertised.
#[derive(Clone, Debug)]
pub struct HomieConfig {
    pub device_id_prefix: String,
    pub prefix: String,
}

impl Default for HomieConfig {
    fn default() -> (config: HomieConfig)
        ensures
            config.device_id_prefix@ == "cloudbbq"@,
            config.prefix@ == "homie"@,
    {
        HomieConfig { device_id_prefix: "cloudbbq".to_owned(), prefix: "homie".to_owned() }
    }
}

/// What is configured for one thermometer.
#[derive(Clone, Debug)]
pub struct DeviceConfig {
    /// The name to advertise in place of the Bluetooth name.
    pub name: Option<String>,
    /// The names of the probes, by probe index.
    pub probe_names: Vec<String>,
}

impl Default for DeviceConfig {
    fn default() -> (config: DeviceConfig)
        ensures
            config.name is None,
            config.probe_names@.len() == 0,
    {
        DeviceConfig { name: None, probe_names: Vec::new() }
    }
}

impl DeviceConfig {
    /// A copy with the same name and the same probe names.
    pub fn duplicate(&self) -> (copy: DeviceConfig)
        ensures
            copy.name == self.name,
            copy.probe_names@ == self.probe_names@,
    {
        let name = match &self.name {
            Some(name) => Some(name.clone()),
            None => None,
        };
        let mut probe_names: Vec<String> = Vec::new();
        let mut i: usize = 0;
        while i < self.probe_names.len()
            invariant
                i <= self.probe_names.len(),
                probe_names@ == self.probe_names@.subrange(0, i as int),
            decreases self.probe_names.len() - i,
        {
            probe_names.push(self.probe_names[i].clone());
            assert(probe_names@ =~= self.probe_names@.subrange(0, i + 1));
            i += 1;
        }
        assert(probe_names@ =~= self.probe_names@);
        DeviceConfig { name, probe_names }
    }
}

/// The address of a Bluetooth device: six octets.
#[derive(Clone, Copy, Debug, PartialEq, Eq)]
pub struct MacAddress {
    pub octets: [u8; 6],
}

impl MacAddress {
    /// The twelve upper-case hexadecimal digits of the address, without
    /// separators.
    pub open spec fn suffix_spec(self) -> Seq<char> {
        hex_byte_text(self.octets[0]) + hex_byte_text(self.octets[1]) + hex_byte_text(
            self.octets[2],
        ) + hex_byte_text(self.octets[3]) + hex_byte_text(self.octets[4]) + hex_byte_text(
            self.octets[5],
        )
    }

    pub fn from_octets(octets: [u8; 6]) -> (address: MacAddress)
        ensures
            address.octets == octets,
    {
        MacAddress { octets }
    }

    /// The address as one number, the first octet counting most. Two
    /// addresses with the same number are the same address.
    pub open spec fn key_spec(self) -> u64 {
        (((((self.octets[0] as int * 256 + self.octets[1] as int) * 256 + self.octets[2] as int)
            * 256 + self.octets[3] as int) * 256 + self.octets[4] as int) * 256
            + self.octets[5] as int) as u64
    }

    pub fn key(&self) -> (key: u64)
        ensures
            key == self.key_spec(),
            key < 0x1_0000_0000_0000,
    {
        let mut key: u64 = 0;
        let mut i: usize = 0;
        while i < 6
            invariant
                i <= 6,
                key < 0x1_0000_0000_0000,
                i == 0 ==> key == 0,
                i == 1 ==> key == self.octets[0],
                i == 2 ==> key == self.octets[0] as int * 256 + self.octets[1] as int,
                i == 3 ==> key == (self.octets[0] as int * 256 + self.octets[1] as int) * 256
                    + self.octets[2] as int,
                i == 4 ==> key == ((self.octets[0] as int * 256 + self.octets[1] as int) * 256
                    + self.octets[2] as int) * 256 + self.octets[3] as int,
                i == 5 ==> key == (((self.octets[0] as int * 256 + self.octets[1] as int) * 256
                    + self.octets[2] as int) * 256 + self.octets[3] as int) * 256
                    + self.octets[4] as int,
                i == 6 ==> key == self.key_spec(),
                i < 6 ==> key < 0x100_0000_0000,
            decreases 6 - i,
        {
            key = key * 256 + self.octets[i] as u64;
            i += 1;
        }
        key
    }

    /// The address that a number stands for.
    pub fn from_key(key: u64) -> (address: MacAddress)
        ensures
            key < 0x1_0000_0000_0000 ==> address.key_spec() == key,
    {
        MacAddress {
            octets: [
                (key / 0x100_0000_0000 % 256) as u8,
                (key / 0x1_0000_0000 % 256) as u8,
                (key / 0x100_0000 % 256) as u8,
                (key / 0x1_0000 % 256) as u8,
                (key / 0x100 % 256) as u8,
                (key % 256) as u8,
            ],
        }
    }

    /// Two addresses with the same number hold the same octets.
    pub proof fn lemma_key_tells_apart(self, other: MacAddress)
        requires
            self.key_spec() == other.key_spec(),
        ensures
            self.octets@ == other.octets@,
    {
        assert(self.octets@ =~= other.octets@);
    }

    /// The part of a device id and of an MQTT client name that tells one
    /// thermometer from another.
    pub fn device_id_suffix(&self) -> (suffix: String)
        ensures
            suffix@ == self.suffix_spec(),
    {
        let mut suffix = String::new();
        push_hex_byte(&mut suffix, self.octets[0]);
        push_hex_byte(&mut suffix, self.octets[1]);
        push_hex_byte(&mut suffix, self.octets[2]);
        push_hex_byte(&mut suffix, self.octets[3]);
        push_hex_byte(&mut suffix, self.octets[4]);
        push_hex_byte(&mut suffix, self.octets[5]);
        assert(suffix@ =~= self.suffix_spec());
        suffix
    }
}

/// The whole configuration.
#[derive(Clone, Debug)]
pub struct Config {
    pub mqtt: MqttConfig,
    pub homie: HomieConfig,
    /// What is configured for each thermometer, under the number of its
    /// address.
    pub devices: HashMap<u64, DeviceConfig>,
}

impl Default for Config {
    fn default() -> (config: Config)
        ensures
            config.devices@ == Map::<u64, DeviceConfig>::empty(),
            config.mqtt.host@ == "test.mosquitto.org"@,
            config.mqtt.port == 1883,
            !config.mqtt.use_tls,
            config.mqtt.username is None,
            config.mqtt.password is None,
            config.mqtt.client_prefix@ == "cloudbbq"@,
            config.homie.device_id_prefix@ == "cloudbbq"@,
            config.homie.prefix@ == "homie"@,
    {
        Config {
            mqtt: MqttConfig::default(),
            homie: HomieConfig::default(),
            devices: HashMap::new(),
        }
    }
}

impl Config {
    /// Sets what is configured for the thermometer with the given address, in
    /// place of what was configured for it before.
    pub fn set_device(&mut self, mac_address: &MacAddress, config: DeviceConfig)
        ensures
            final(self).devices@ == old(self).devices@.insert(mac_address.key_spec(), config),
            final(self).mqtt == old(self).mqtt,
            final(self).homie == old(self).homie,
    {
        self.devices.insert(mac_address.key(), config);
    }

    /// What is configured for the thermometer with the given address, or the
    /// default where nothing is.
    pub fn device_config(&self, mac_address: &MacAddress) -> (config: DeviceConfig)
        ensures
            match self.devices@.get(mac_address.key_spec()) {
                Some(entry) => config.name == entry.name && config.probe_names@
                    == entry.probe_names@,
                None => config.name is None && config.probe_names@.len() == 0,
            },
    {
        let key = mac_address.key();
        match self.devices.get(&key) {
            Some(entry) => entry.duplicate(),
            None => DeviceConfig::default(),
        }
    }
}

/// The settings of one connection to the MQTT broker.
#[derive(Clone, Debug)]
pub struct MqttOptions {
    pub client_id: String,
    pub host: String,
    pub port: u16,
    /// Seconds between two signs of life.
    pub keep_alive: u16,
    /// User name and password.
    pub credentials: Option<(String, String)>,
    pub use_tls: bool,
}

/// The settings for connecting to the broker as the thermometer named by
/// `client_name_suffix`. Credentials are used only where both a user name and
/// a password are configured.
pub fn get_mqtt_options(config: &MqttConfig, client_name_suffix: &str, use_tls: bool) -> (options:
    MqttOptions)
    ensures
        options.client_id@ == config.client_prefix@ + "-"@ + client_name_suffix@,
        options.host@ == config.host@,
        options.port == config.port,
        options.keep_alive == 5,
        options.use_tls == use_tls,
        match (config.username, config.password) {
            (Some(username), Some(password)) => options.credentials matches Some(c) && c.0@
                == username@ && c.1@ == password@,
            _ => options.credentials is None,
        },
{
    let mut client_id = config.client_prefix.clone();
    client_id.append("-");
    client_id.append(client_name_suffix);
    let credentials = match (&config.username, &config.password) {
        (Some(username), Some(password)) => Some((username.clone(), password.clone())),
        _ => None,
    };
    MqttOptions {
        client_id,
        host: config.host.clone(),
        port: config.port,
        keep_alive: 5,
        credentials,
        use_tls,
    }
}

} // verus!
