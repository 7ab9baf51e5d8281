//! What the cloud session is opened with: the options, the client identifier,
//! the topics and the claims of the access token.

use vstd::prelude::*;
use vstd::string::*;

verus! {

/// Quality of service of the state publications.
pub const STATE_QOS: i32 = 1;

/// Seconds to wait after a publication before the next one.
pub const PUBLISH_PAUSE_S: u64 = 1;

/// What the cloud client is created with.
#[derive(Clone, Copy, Debug)]
pub struct MqttCreateOptions<'a> {
    pub gcp_project_id: &'a str,
    pub gcp_region: &'a str,
    pub gcp_registry_name: &'a str,
    pub hostname: &'a str,
    pub gateway_id: &'a str,
}

/// What the cloud session is connected with.
#[derive(Clone, Copy, Debug)]
pub struct MqttConnectOptions<'a> {
    pub trust_store_path: &'a str,
    pub username: &'a str,
    pub token_expiry_time_s: i64,
}

/// The claims of the signed token that opens the session.
#[derive(Clone, Copy, Debug)]
pub struct JwtClaims<'a> {
    /// The audience: the cloud project.
    pub aud: &'a str,
    /// Issued at, in seconds.
    pub iat: i64,
    /// Expires at, in seconds.
    pub exp: i64,
}

/// The identifier under which a gateway is registered with the cloud.
pub open spec fn client_id_spec(
    project: Seq<char>,
    region: Seq<char>,
    registry: Seq<char>,
    gateway: Seq<char>,
) -> Seq<char> {
    "projects/"@ + project + "/locations/"@ + region + "/registries/"@ + registry + "/devices/"@
        + gateway
}

/// The topic filter under which the commands for a gateway arrive.
pub open spec fn command_topic_spec(gateway: Seq<char>) -> Seq<char> {
    "/devices/"@ + gateway + "/commands/#"@
}

/// The topic on which a gateway publishes its state.
pub open spec fn state_topic_spec(gateway: Seq<char>) -> Seq<char> {
    "/devices/"@ + gateway + "/state"@
}

impl<'a> MqttCreateOptions<'a> {
    /// The client identifier for these options.
    pub fn client_id(&self) -> (id: String)
        ensures
            id@ == client_id_spec(
                self.gcp_project_id@,
                self.gcp_region@,
                self.gcp_registry_name@,
                self.gateway_id@,
            ),
    {
        let mut id = String::from_str("projects/");
        id.append(self.gcp_project_id);
        id.append("/locations/");
        id.append(self.gcp_region);
        id.append("/registries/");
        id.append(self.gcp_registry_name);
        id.append("/devices/");
        id.append(self.gateway_id);
        id
    }
}

impl<'a> MqttConnectOptions<'a> {
    /// The claims of a token for the project `gcp_project_id`, issued at `now`
    /// and valid for the expiry time of these options.
    pub fn claims(&self, gcp_project_id: &'a str, now: i64) -> (claims: JwtClaims<'a>)
        requires
            i64::MIN <= now + self.token_expiry_time_s <= i64::MAX,
        ensures
            claims.aud@ == gcp_project_id@,
            claims.iat == now,
            claims.exp == now + self.token_expiry_time_s,
    {
        JwtClaims { aud: gcp_project_id, iat: now, exp: now + self.token_expiry_time_s }
    }
}

/// The topic filter to subscribe to for the commands of `gateway_id`.
pub fn command_topic(gateway_id: &str) -> (topic: String)
    ensures
        topic@ == command_topic_spec(gateway_id@),
{
    let mut topic = String::from_str("/devices/");
    topic.append(gateway_id);
    topic.append("/commands/#");
    topic
}

/// The topic to publish the state of `gateway_id` on.
pub fn state_topic(gateway_id: &str) -> (topic: String)
    ensures
        topic@ == state_topic_spec(gateway_id@),
{
    let mut topic = String::from_str("/devices/");
    topic.append(gateway_id);
    topic.append("/state");
    topic
}

} // verus!
