use vstd::prelude::*;
use vstd::string::*;

use crate::text::{parse_u16, parse_u16_view};

verus! {

broadcast use vstd::string::group_string_axioms;

/// The path `name` inside the directory `dir`, as `Path::join` builds it for
/// a relative `name`: a `/` is put between them unless `dir` is empty or
/// already ends with one.
pub open spec fn join_view(dir: Seq<char>, name: Seq<char>) -> Seq<char> {
    if dir.len() == 0 || dir[dir.len() - 1] == '/' {
        dir + name
    } else {
        dir + "/"@ + name
    }
}

/// Joining puts the name in the directory: the result begins with the
/// directory and ends with the name; in a non-empty directory the name is
/// preceded by a `/`; and at most one `/` is added, none when the directory
/// is empty or already ends with one.
pub proof fn law_join_puts_name_in_directory(dir: Seq<char>, name: Seq<char>)
    ensures
        ({
            let r = join_view(dir, name);
            &&& dir.len() + name.len() <= r.len() <= dir.len() + 1 + name.len()
            &&& r.take(dir.len() as int) == dir
            &&& r.skip(r.len() - name.len()) == name
            &&& dir.len() > 0 ==> r[r.len() - name.len() - 1] == '/'
            &&& (dir.len() == 0 || dir[dir.len() - 1] == '/') ==> r.len() == dir.len() + name.len()
        }),
{
    reveal_strlit("/");
    let r = join_view(dir, name);
    if dir.len() == 0 || dir[dir.len() - 1] == '/' {
        assert(r =~= dir + name);
        assert(r.take(dir.len() as int) =~= dir);
        assert(r.skip(r.len() - name.len()) =~= name);
    } else {
        assert(r =~= dir + "/"@ + name);
        assert(r.take(dir.len() as int) =~= dir);
        assert(r.skip(r.len() - name.len()) =~= name);
    }
}

/// `Path::join` of a relative file name onto a directory.
pub fn join_path(dir: &str, name: &str) -> (r: String)
    requires
        name@.len() == 0 || name@[0] != '/',
    ensures
        r@ == join_view(dir@, name@),
{
    proof {
        reveal_strlit("/");
    }
    let n = dir.unicode_len();
    if n == 0 || dir.get_char(n - 1) == '/' {
        String::from_str(dir).concat(name)
    } else {
        String::from_str(dir).concat("/").concat(name)
    }
}

/// The MQTT port when none is configured or the configured one does not parse.
pub const DEFAULT_MQTT_PORT: u16 = 1883;

/// `MQTT_PORT`, falling back to 1883 when unset or not a port number.
pub open spec fn mqtt_port_view(setting: Option<Seq<char>>) -> u16 {
    match setting {
        Some(s) => match parse_u16_view(s) {
            Some(p) => p,
            None => 1883,
        },
        None => 1883,
    }
}

/// `MQTT_CLIENT_ID`, falling back to `placenet-home`.
pub open spec fn client_id_view(setting: Option<Seq<char>>) -> Seq<char> {
    match setting {
        Some(s) => s,
        None => "placenet-home"@,
    }
}

/// `PLACENET_CONFIG_DIR`, falling back to `config`.
pub open spec fn config_dir_view(setting: Option<Seq<char>>) -> Seq<char> {
    match setting {
        Some(s) => s,
        None => "config"@,
    }
}

pub open spec fn opt_view(o: Option<String>) -> Option<Seq<char>> {
    match o {
        Some(s) => Some(s@),
        None => None,
    }
}

pub struct MqttConfig {
    pub port: u16,
    pub client_id: String,
    pub config_file: String,
    pub password_file: String,
}

impl MqttConfig {
    /// Build the MQTT settings from the configuration directory and the
    /// values of `MQTT_PORT` and `MQTT_CLIENT_ID` (`None` when unset).
    pub fn from_values(config_dir: &str, port: Option<String>, client_id: Option<String>) -> (c: MqttConfig)
        ensures
            c.port == mqtt_port_view(opt_view(port)),
            c.client_id@ == client_id_view(opt_view(client_id)),
            c.config_file@ == join_view(config_dir@, "mosquitto.conf"@),
            c.password_file@ == join_view(config_dir@, "mosquitto.passwd"@),
    {
        proof {
            reveal_strlit("mosquitto.conf");
            reveal_strlit("mosquitto.passwd");
        }
        let port: u16 = match &port {
            Some(s) => match parse_u16(s.as_str()) {
                Some(p) => p,
                None => DEFAULT_MQTT_PORT,
            },
            None => DEFAULT_MQTT_PORT,
        };
        let client_id = match client_id {
            Some(s) => s,
            None => String::from_str("placenet-home"),
        };
        let config_file = join_path(config_dir, "mosquitto.conf");
        let password_file = join_path(config_dir, "mosquitto.passwd");
        MqttConfig { port, client_id, config_file, password_file }
    }
}

pub struct Config {
    pub mqtt: MqttConfig,
    pub config_dir: String,
}

impl Config {
    /// Build the configuration from the values of `PLACENET_CONFIG_DIR`,
    /// `MQTT_PORT` and `MQTT_CLIENT_ID` (`None` when unset), falling back to
    /// the defaults for each.
    pub fn from_values(config_dir: Option<String>, mqtt_port: Option<String>, mqtt_client_id: Option<String>) -> (c: Config)
        ensures
            c.config_dir@ == config_dir_view(opt_view(config_dir)),
            c.mqtt.port == mqtt_port_view(opt_view(mqtt_port)),
            c.mqtt.client_id@ == client_id_view(opt_view(mqtt_client_id)),
            c.mqtt.config_file@ == join_view(config_dir_view(opt_view(config_dir)), "mosquitto.conf"@),
            c.mqtt.password_file@ == join_view(config_dir_view(opt_view(config_dir)), "mosquitto.passwd"@),
    {
        let dir = match config_dir {
            Some(s) => s,
            None => String::from_str("config"),
        };
        let mqtt = MqttConfig::from_values(dir.as_str(), mqtt_port, mqtt_client_id);
        Config { mqtt, config_dir: dir }
    }
}

/// Settings of the Mosquitto broker that the node runs.
pub struct MqttBrokerageConfig {
    pub port: u16,
    pub mqtts_port: u16,
    pub tls_enabled: bool,
    pub username: String,
    pub password: String,
    pub config_file: String,
    pub password_file: String,
    pub cafile: String,
    pub certfile: String,
    pub keyfile: String,
}

/// Settings of the node's HTTP front door.
pub struct HttpConfig {
    pub host: String,
    pub port: u16,
    pub upstream_port: u16,
    pub tls_enabled: bool,
}

/// Settings of the node's registration with the cloud gateway.
pub struct GatewayRegistrationConfig {
    pub server_url: String,
    pub gateway_url: Option<String>,
}

/// Settings of the node's own MQTT client.
pub struct MqttClientConfig {
    pub client_id: String,
    pub host: String,
    pub port: u16,
    pub tls_enabled: bool,
    pub username: String,
    pub password: String,
    pub cafile: String,
    pub certfile: String,
    pub keyfile: String,
}

} // verus!
