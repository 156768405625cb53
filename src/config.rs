use vstd::prelude::*;

verus! {

/// The service's settings.
#[derive(Debug, Clone)]
pub struct AppConfig {
    pub listen_addr: String,
    pub database_url: String,
    pub log_level: String,
}

impl Default for AppConfig {
    fn default() -> (r: Self)
        ensures
            r.listen_addr@ == "127.0.0.1:3000"@,
            r.database_url@ == "postgres://localhost/myapp"@,
            r.log_level@ == "debug"@,
    {
        AppConfig {
            listen_addr: "127.0.0.1:3000".to_owned(),
            database_url: "postgres://localhost/myapp".to_owned(),
            log_level: "debug".to_owned(),
        }
    }
}

/// The settings one source gives (a file, the environment); an absent field
/// leaves the value of the sources below it.
#[derive(Debug, Clone)]
pub struct ConfigLayer {
    pub listen_addr: Option<String>,
    pub database_url: Option<String>,
    pub log_level: Option<String>,
}

/// Why the settings could not be assembled.
#[derive(Debug, Clone)]
pub enum ConfigError {
    /// A required field that no source sets.
    Missing(String),
}

pub open spec fn opt_view(o: Option<String>) -> Option<Seq<char>> {
    match o {
        Some(s) => Some(s@),
        None => None,
    }
}

/// The value of one field over sources in rising precedence: the last one
/// that sets it, else `fallback`.
pub open spec fn setting(vals: Seq<Option<String>>, fallback: Option<Seq<char>>) -> Option<Seq<char>>
    decreases vals.len(),
{
    if vals.len() == 0 {
        fallback
    } else {
        match vals.last() {
            Some(s) => Some(s@),
            None => setting(vals.drop_last(), fallback),
        }
    }
}

pub open spec fn listen_addrs(ls: Seq<ConfigLayer>) -> Seq<Option<String>> {
    ls.map_values(|l: ConfigLayer| l.listen_addr)
}

pub open spec fn database_urls(ls: Seq<ConfigLayer>) -> Seq<Option<String>> {
    ls.map_values(|l: ConfigLayer| l.database_url)
}

pub open spec fn log_levels(ls: Seq<ConfigLayer>) -> Seq<Option<String>> {
    ls.map_values(|l: ConfigLayer| l.log_level)
}

fn overlay(cur: Option<String>, given: &Option<String>) -> (r: Option<String>)
    ensures
        opt_view(r) == match given {
            Some(s) => Some(s@),
            None => opt_view(cur),
        },
{
    match given {
        Some(s) => Some(s.clone()),
        None => cur,
    }
}

proof fn lemma_setting_step(vals: Seq<Option<String>>, i: int, fallback: Option<Seq<char>>)
    requires
        0 <= i < vals.len(),
    ensures
        setting(vals.take(i + 1), fallback) == match vals[i] {
            Some(s) => Some(s@),
            None => setting(vals.take(i), fallback),
        },
{
    assert(vals.take(i + 1).drop_last() =~= vals.take(i));
    assert(vals.take(i + 1).last() == vals[i]);
}

proof fn lemma_setting_defaulted(vals: Seq<Option<String>>, d: Seq<char>)
    ensures
        setting(vals, Some(d)) is Some,
    decreases vals.len(),
{
    if vals.len() > 0 {
        lemma_setting_defaulted(vals.drop_last(), d);
    }
}

/// Assembles the settings from `sources`, lowest precedence first, over the
/// defaults `listen_addr = "127.0.0.1:3000"` and `log_level = "debug"`. The
/// database URL has no default: when no source sets it, `Missing`.
pub fn load(sources: &Vec<ConfigLayer>) -> (r: Result<AppConfig, ConfigError>)
    ensures
        setting(database_urls(sources@), None) is None <==> r is Err,
        r matches Err(ConfigError::Missing(f)) ==> f@ == "database_url"@,
        r matches Ok(c) ==> {
            &&& Some(c.listen_addr@) == setting(listen_addrs(sources@), Some("127.0.0.1:3000"@))
            &&& Some(c.database_url@) == setting(database_urls(sources@), None)
            &&& Some(c.log_level@) == setting(log_levels(sources@), Some("debug"@))
        },
{
    let mut listen: Option<String> = Some("127.0.0.1:3000".to_owned());
    let mut url: Option<String> = None;
    let mut level: Option<String> = Some("debug".to_owned());
    let mut i: usize = 0;
    while i < sources.len()
        invariant
            i <= sources.len(),
            opt_view(listen) == setting(listen_addrs(sources@).take(i as int), Some("127.0.0.1:3000"@)),
            opt_view(url) == setting(database_urls(sources@).take(i as int), None),
            opt_view(level) == setting(log_levels(sources@).take(i as int), Some("debug"@)),
        decreases sources.len() - i,
    {
        let layer = &sources[i];
        proof {
            lemma_setting_step(listen_addrs(sources@), i as int, Some("127.0.0.1:3000"@));
            lemma_setting_step(database_urls(sources@), i as int, None);
            lemma_setting_step(log_levels(sources@), i as int, Some("debug"@));
        }
        listen = overlay(listen, &layer.listen_addr);
        url = overlay(url, &layer.database_url);
        level = overlay(level, &layer.log_level);
        i = i + 1;
    }
    assert(listen_addrs(sources@).take(sources@.len() as int) =~= listen_addrs(sources@));
    assert(database_urls(sources@).take(sources@.len() as int) =~= database_urls(sources@));
    assert(log_levels(sources@).take(sources@.len() as int) =~= log_levels(sources@));
    proof {
        lemma_setting_defaulted(listen_addrs(sources@), "127.0.0.1:3000"@);
        lemma_setting_defaulted(log_levels(sources@), "debug"@);
    }
    match (listen, url, level) {
        (Some(listen_addr), Some(database_url), Some(log_level)) => Ok(
            AppConfig { listen_addr, database_url, log_level },
        ),
        (_, None, _) => Err(ConfigError::Missing("database_url".to_owned())),
        _ => Err(ConfigError::Missing("listen_addr".to_owned())),
    }
}

} // verus!
