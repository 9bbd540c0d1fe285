use crate::errors::RithmicApiError;
use crate::text::str_eq;
use vstd::prelude::*;
use vstd::string::StringExecFns;

verus! {

/// The server locations that a connection address can be looked up for.
#[derive(Clone, Copy, Debug, PartialEq, Eq, Structural, Hash, PartialOrd, Ord)]
pub enum RithmicServer {
    Chicago,
    Sydney,
    SaoPaolo,
    Colo75,
    Frankfurt,
    HongKong,
    Ireland,
    Mumbai,
    Seoul,
    CapeTown,
    Tokyo,
    Singapore,
    Test,
}

impl RithmicServer {
    /// The name under which the server directory lists the location.
    pub open spec fn name(self) -> Seq<char> {
        match self {
            RithmicServer::Chicago => "Chicago"@,
            RithmicServer::Sydney => "Sydney"@,
            RithmicServer::SaoPaolo => "SaoPaolo"@,
            RithmicServer::Colo75 => "Colo75"@,
            RithmicServer::Frankfurt => "Frankfurt"@,
            RithmicServer::HongKong => "HongKong"@,
            RithmicServer::Ireland => "Ireland"@,
            RithmicServer::Mumbai => "Mumbai"@,
            RithmicServer::Seoul => "Seoul"@,
            RithmicServer::CapeTown => "CapeTown"@,
            RithmicServer::Tokyo => "Tokyo"@,
            RithmicServer::Singapore => "Singapore"@,
            RithmicServer::Test => "Test"@,
        }
    }

    /// The text of the error that reports an unknown location name.
    pub open spec fn unknown(s: Seq<char>) -> Seq<char> {
        "Unknown RithmicServer: "@ + s
    }

    /// Returns the name under which the server directory lists the location.
    pub fn as_str(&self) -> (s: &'static str)
        ensures
            s@ == self.name(),
    {
        match self {
            RithmicServer::Chicago => "Chicago",
            RithmicServer::Sydney => "Sydney",
            RithmicServer::SaoPaolo => "SaoPaolo",
            RithmicServer::Colo75 => "Colo75",
            RithmicServer::Frankfurt => "Frankfurt",
            RithmicServer::HongKong => "HongKong",
            RithmicServer::Ireland => "Ireland",
            RithmicServer::Mumbai => "Mumbai",
            RithmicServer::Seoul => "Seoul",
            RithmicServer::CapeTown => "CapeTown",
            RithmicServer::Tokyo => "Tokyo",
            RithmicServer::Singapore => "Singapore",
            RithmicServer::Test => "Test",
        }
    }

    /// Finds the location with the given name. An unknown name is reported
    /// with the text `Unknown RithmicServer: ` followed by the name.
    pub fn from_str(s: &str) -> (r: Result<RithmicServer, String>)
        ensures
            match r {
                Ok(server) => server.name() == s@,
                Err(message) => message@ == Self::unknown(s@) && forall|server: RithmicServer|
                    server.name() != s@,
            },
    {
        if str_eq(s, "Chicago") {
            Ok(RithmicServer::Chicago)
        } else if str_eq(s, "Sydney") {
            Ok(RithmicServer::Sydney)
        } else if str_eq(s, "SaoPaolo") {
            Ok(RithmicServer::SaoPaolo)
        } else if str_eq(s, "Colo75") {
            Ok(RithmicServer::Colo75)
        } else if str_eq(s, "Frankfurt") {
            Ok(RithmicServer::Frankfurt)
        } else if str_eq(s, "HongKong") {
            Ok(RithmicServer::HongKong)
        } else if str_eq(s, "Ireland") {
            Ok(RithmicServer::Ireland)
        } else if str_eq(s, "Mumbai") {
            Ok(RithmicServer::Mumbai)
        } else if str_eq(s, "Seoul") {
            Ok(RithmicServer::Seoul)
        } else if str_eq(s, "CapeTown") {
            Ok(RithmicServer::CapeTown)
        } else if str_eq(s, "Tokyo") {
            Ok(RithmicServer::Tokyo)
        } else if str_eq(s, "Singapore") {
            Ok(RithmicServer::Singapore)
        } else if str_eq(s, "Test") {
            Ok(RithmicServer::Test)
        } else {
            Err(String::from_str("Unknown RithmicServer: ").concat(s))
        }
    }
}

/// No two locations share a name, so `from_str` finds the one location that
/// a name was taken from.
pub proof fn lemma_name_identifies_server(a: RithmicServer, b: RithmicServer)
    requires
        a.name() == b.name(),
    ensures
        a == b,
{
    reveal_strlit("Chicago");
    assert("Chicago"@.len() == 7 && "Chicago"@[0] == 'C');
    reveal_strlit("Sydney");
    assert("Sydney"@.len() == 6 && "Sydney"@[0] == 'S');
    reveal_strlit("SaoPaolo");
    assert("SaoPaolo"@.len() == 8 && "SaoPaolo"@[0] == 'S');
    reveal_strlit("Colo75");
    assert("Colo75"@.len() == 6 && "Colo75"@[0] == 'C');
    reveal_strlit("Frankfurt");
    assert("Frankfurt"@.len() == 9 && "Frankfurt"@[0] == 'F');
    reveal_strlit("HongKong");
    assert("HongKong"@.len() == 8 && "HongKong"@[0] == 'H');
    reveal_strlit("Ireland");
    assert("Ireland"@.len() == 7 && "Ireland"@[0] == 'I');
    reveal_strlit("Mumbai");
    assert("Mumbai"@.len() == 6 && "Mumbai"@[0] == 'M');
    reveal_strlit("Seoul");
    assert("Seoul"@.len() == 5 && "Seoul"@[0] == 'S');
    reveal_strlit("CapeTown");
    assert("CapeTown"@.len() == 8 && "CapeTown"@[0] == 'C');
    reveal_strlit("Tokyo");
    assert("Tokyo"@.len() == 5 && "Tokyo"@[0] == 'T');
    reveal_strlit("Singapore");
    assert("Singapore"@.len() == 9 && "Singapore"@[0] == 'S');
    reveal_strlit("Test");
    assert("Test"@.len() == 4 && "Test"@[0] == 'T');
}

/// The text of the error that reports an entry without a domain.
pub open spec fn invalid_domain(name: Seq<char>) -> Seq<char> {
    "Invalid domain for server "@ + name
}

/// An entry of the directory file is good when its key names a location and
/// its value is a string.
pub open spec fn is_good_entry(entry: (String, Option<String>)) -> bool {
    entry.1 is Some && exists|server: RithmicServer| server.name() == entry.0@
}

/// The entry at `i` is bad, and none before it is.
pub open spec fn is_first_bad_entry(entries: Seq<(String, Option<String>)>, i: int) -> bool {
    &&& 0 <= i < entries.len()
    &&& !is_good_entry(entries[i])
    &&& forall|j: int| 0 <= j < i ==> is_good_entry(#[trigger] entries[j])
}

/// `error` is the report on the bad entry: an unknown location name comes
/// before a missing domain.
pub open spec fn reports_entry(error: RithmicApiError, entry: (String, Option<String>)) -> bool {
    if exists|server: RithmicServer| server.name() == entry.0@ {
        error matches RithmicApiError::InvalidConfig(text) && text@ == invalid_domain(entry.0@)
    } else {
        error matches RithmicApiError::InvalidServerName(text) && text@ == RithmicServer::unknown(
            entry.0@,
        )
    }
}

/// Turns the entries of the `rithmic_servers` table of a directory file into
/// the server directory: each key becomes its location, each value the
/// location's domain. The first entry with an unknown location or without a
/// string value fails the whole directory.
pub fn server_domains(entries: Vec<(String, Option<String>)>) -> (r: Result<
    Vec<(RithmicServer, String)>,
    RithmicApiError,
>)
    ensures
        match r {
            Ok(directory) => {
                &&& directory@.len() == entries@.len()
                &&& forall|i: int|
                    0 <= i < entries@.len() ==> (#[trigger] directory@[i]).0.name()
                        == entries@[i].0@ && entries@[i].1 == Some(directory@[i].1)
            },
            Err(error) => exists|i: int| #[trigger]
                is_first_bad_entry(entries@, i) && reports_entry(error, entries@[i]),
        },
{
    let mut directory: Vec<(RithmicServer, String)> = Vec::new();
    let mut i: usize = 0;
    while i < entries.len()
        invariant
            i <= entries@.len(),
            directory@.len() == i,
            forall|j: int|
                0 <= j < i ==> (#[trigger] directory@[j]).0.name() == entries@[j].0@
                    && entries@[j].1 == Some(directory@[j].1),
            forall|j: int| 0 <= j < i ==> is_good_entry(#[trigger] entries@[j]),
        decreases entries@.len() - i,
    {
        let server = match RithmicServer::from_str(entries[i].0.as_str()) {
            Ok(server) => server,
            Err(message) => {
                assert(is_first_bad_entry(entries@, i as int));
                return Err(RithmicApiError::InvalidServerName(message));
            },
        };
        let domain = match &entries[i].1 {
            Some(domain) => domain.clone(),
            None => {
                assert(is_first_bad_entry(entries@, i as int));
                return Err(
                    RithmicApiError::InvalidConfig(
                        String::from_str("Invalid domain for server ").concat(
                            entries[i].0.as_str(),
                        ),
                    ),
                );
            },
        };
        directory.push((server, domain));
        i += 1;
    }
    Ok(directory)
}

/// Looks a location up in the directory.
pub fn domain_of(directory: &Vec<(RithmicServer, String)>, server: RithmicServer) -> (domain:
    Option<String>)
    ensures
        match domain {
            Some(found) => exists|i: int|
                0 <= i < directory@.len() && (#[trigger] directory@[i]) == (server, found)
                    && forall|j: int| 0 <= j < i ==> (#[trigger] directory@[j]).0 != server,
            None => forall|i: int| 0 <= i < directory@.len() ==> (#[trigger] directory@[i]).0 != server,
        },
{
    let mut i: usize = 0;
    while i < directory.len()
        invariant
            i <= directory@.len(),
            forall|j: int| 0 <= j < i ==> (#[trigger] directory@[j]).0 != server,
        decreases directory@.len() - i,
    {
        if directory[i].0 == server {
            return Some(directory[i].1.clone());
        }
        i += 1;
    }
    None
}

} // verus!
