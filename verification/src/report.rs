//! Where metrics go: the log, or an InfluxDB server, and the settings of the
//! latter.
use crate::text::{i32_decimal, int_decimal, str_equal};
use vstd::prelude::*;

verus! {

#[verifier::external_type_specification]
#[verifier::external_body]
pub struct ExInfluxClient(influxdb::Client);

/// The InfluxDB server to report to.
#[derive(Clone, Debug)]
pub struct InfluxConfig {
    pub reporter_influx_host: String,
    pub reporter_influx_port: i32,
}

/// The host used where none is configured: `localhost`.
pub fn default_localhost() -> (host: String)
    ensures
        host@ == seq!['l', 'o', 'c', 'a', 'l', 'h', 'o', 's', 't'],
{
    let s = "localhost";
    proof {
        reveal_strlit("localhost");
    }
    String::from_str(s)
}

/// The port used where none is configured: 8086, InfluxDB's own.
pub fn default_8086() -> (port: i32)
    ensures
        port == 8086,
{
    8086
}

/// `http://host:port`.
pub open spec fn spec_influx_url(host: Seq<char>, port: int) -> Seq<char> {
    seq!['h', 't', 't', 'p', ':', '/', '/'] + host + seq![':'] + int_decimal(port)
}

/// The URL of the InfluxDB server that `config` names.
pub fn influx_url(config: &InfluxConfig) -> (url: String)
    ensures
        url@ == spec_influx_url(config.reporter_influx_host@, config.reporter_influx_port as int),
{
    let scheme = "http://";
    let colon = ":";
    proof {
        reveal_strlit("http://");
        reveal_strlit(":");
    }
    let port = i32_decimal(config.reporter_influx_port);
    let mut url = String::from_str(scheme);
    url.append(config.reporter_influx_host.as_str());
    url.append(colon);
    url.append(port.as_str());
    assert(url@ =~= spec_influx_url(
        config.reporter_influx_host@,
        config.reporter_influx_port as int,
    ));
    url
}

/// Where metrics are reported.
#[derive(Clone, Copy, Debug, PartialEq, Eq)]
pub enum ReporterType {
    Log,
    Influx,
}

impl ReporterType {
    /// The reporter that a setting names: `influx` names InfluxDB; any
    /// other value, or none, names the log.
    pub fn from_setting(setting: Option<&str>) -> (t: ReporterType)
        ensures
            t == (if setting matches Some(v) && v@ == seq!['i', 'n', 'f', 'l', 'u', 'x'] {
                ReporterType::Influx
            } else {
                ReporterType::Log
            }),
    {
        match setting {
            Some(v) => {
                let influx = "influx";
                proof {
                    reveal_strlit("influx");
                }
                assert(influx@ =~= seq!['i', 'n', 'f', 'l', 'u', 'x']);
                if str_equal(v, influx) {
                    ReporterType::Influx
                } else {
                    ReporterType::Log
                }
            },
            None => ReporterType::Log,
        }
    }
}

/// A reporter: its kind, and for InfluxDB the client that writes.
pub struct Reporter {
    pub reporter_type: ReporterType,
    pub influxdb_client: Option<InfluxClient>,
}

/// An InfluxDB client, with the server URL and the database name that it
/// was made with.
pub struct InfluxClient {
    client: influxdb::Client,
    url: Ghost<Seq<char>>,
    database: Ghost<Seq<char>>,
}

impl InfluxClient {
    /// The URL of the server that the client writes to.
    pub closed spec fn url(&self) -> Seq<char> {
        self.url@
    }

    /// The database that the client writes to.
    pub closed spec fn database(&self) -> Seq<char> {
        self.database@
    }

    /// The client itself.
    pub closed spec fn inner(&self) -> influxdb::Client {
        self.client
    }

    /// Calls `influxdb::Client::new` with a server URL and a database name;
    /// the client stores both as given.
    #[verifier::external_body]
    fn new(url: String, database: &str) -> (c: InfluxClient)
        ensures
            c.url() == url@,
            c.database() == database@,
    {
        InfluxClient {
            url: Ghost(url@),
            database: Ghost(database@),
            client: influxdb::Client::new(url, database),
        }
    }

    /// The client that performs the writes.
    pub fn client(&self) -> (c: &influxdb::Client)
        ensures
            *c == self.inner(),
    {
        &self.client
    }
}

impl Reporter {
    /// A reporter that writes metrics to the log.
    pub fn to_log() -> (r: Reporter)
        ensures
            r.reporter_type == ReporterType::Log,
            r.influxdb_client is None,
    {
        Reporter { reporter_type: ReporterType::Log, influxdb_client: None }
    }

    /// A reporter that writes to the `telegraf` database of the server that
    /// `config` names.
    pub fn to_influx(config: &InfluxConfig) -> (r: Reporter)
        ensures
            r.reporter_type == ReporterType::Influx,
            r.influxdb_client is Some,
            r.influxdb_client->0.url() == spec_influx_url(
                config.reporter_influx_host@,
                config.reporter_influx_port as int,
            ),
            r.influxdb_client->0.database() == seq!['t', 'e', 'l', 'e', 'g', 'r', 'a', 'f'],
    {
        let url = influx_url(config);
        let database = "telegraf";
        proof {
            reveal_strlit("telegraf");
        }
        assert(database@ =~= seq!['t', 'e', 'l', 'e', 'g', 'r', 'a', 'f']);
        let client = InfluxClient::new(url, database);
        Reporter { reporter_type: ReporterType::Influx, influxdb_client: Some(client) }
    }

    /// The InfluxDB client; there must be one.
    pub fn influxdb(&self) -> (client: &InfluxClient)
        requires
            self.influxdb_client is Some,
        ensures
            *client == self.influxdb_client->0,
    {
        match &self.influxdb_client {
            Some(client) => client,
            None => unreached(),
        }
    }
}

} // verus!
