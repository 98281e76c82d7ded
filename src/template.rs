use vstd::prelude::*;

verus! {

/// The starting configuration file; `{putio_api_key}` is filled in with the
/// key of the remote service.
pub const CONFIG_TEMPLATE: &'static str = r#"# Required. Username and password that sonarr/radarr use to connect to the proxy
username = "myusername"
password = "mypassword"

# Required. Directory where the proxy will download files to. This directory has to be readable by
# sonarr/radarr in order to import downloads
download_directory = "/path/to/downloads"

# Optional bind address, default "0.0.0.0"
bind_address = "0.0.0.0"

# Optional TCP port, default 9091
port = 9091

# Optional log level, default "info"
loglevel = "info"

# Optional UID, default 1000. Change the owner of the downloaded files to this UID. Requires root.
uid = 1000

# Optional polling interval in secs, default 10.
polling_interval = 10

# Optional skip directories when downloding, default ["sample", "extras"]
skip_directories = ["sample", "extras"]

# Optional number of orchestration workers, default 10. Unless there are many changes coming from
# put.io, you shouldn't have to touch this number. 10 is already overkill.
orchestration_workers = 10

# Optional number of download workers, default 4. This controls how many downloads we run in parallel.
download_workers = 4

[putio]
# Required. Putio API key. You can generate one using `putioarr get-token`
api_key =  "{putio_api_key}"

# Both [sonarr] and [radarr] are optional, but you'll need at least one of them
[sonarr]
url = "http://mysonarrhost:8989/sonarr"
# Can be found in Settings -> General
api_key = "MYSONARRAPIKEY"

[radarr]
url = "http://myradarrhost:7878/radarr"
# Can be found in Settings -> General
api_key = "MYRADARRAPIKEY"

[whisparr]
url = "http://mywhisparrhost:6969/whisparr"
# Can be found in Settings -> General
api_key = "MYWHISPARRAPIKEY"

[lidarr]
url = "http://mylidarrhost:6969/lidarr"
# Can be found in Settings -> General
api_key = "MYLIDARRAPIKEY"

"#;

/// The name of the template's single slot.
pub const API_KEY_SLOT: &'static str = "putio_api_key";

/// The text that tinytemplate renders from `template` with `value` in the slot
/// named `slot`; `None` where it refuses the template.
pub uninterp spec fn rendered(template: Seq<char>, slot: Seq<char>, value: Seq<char>) -> Option<Seq<char>>;

/// Relies on tinytemplate's `TinyTemplate::add_template` and `render`, with a
/// context of one named value: the result depends on the three strings alone.
/// Only the configuration template is admitted, since tinytemplate's compiler
/// panics on some malformed templates.
#[verifier::external_body]
fn render_template(template: &str, slot: &str, value: &str) -> (r: Option<String>)
    requires
        template@ == CONFIG_TEMPLATE@,
    ensures
        match r {
            Some(s) => rendered(template@, slot@, value@) == Some(s@),
            None => rendered(template@, slot@, value@) is None,
        },
{
    let mut tt = tinytemplate::TinyTemplate::new();
    tt.add_template("config", template).ok()?;
    let mut context = std::collections::HashMap::new();
    context.insert(slot, value);
    tt.render("config", &context).ok()
}

/// The starting configuration file for the remote service key `api_key`.
pub fn generate_config_text(api_key: &str) -> (r: Option<String>)
    ensures
        match r {
            Some(s) => rendered(CONFIG_TEMPLATE@, API_KEY_SLOT@, api_key@) == Some(s@),
            None => rendered(CONFIG_TEMPLATE@, API_KEY_SLOT@, api_key@) is None,
        },
{
    render_template(CONFIG_TEMPLATE, API_KEY_SLOT, api_key)
}

} // verus!
