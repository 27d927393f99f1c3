//! The credentials of the configuration and the choice between them.
use vstd::prelude::*;

verus! {

/// One set of credentials of the configuration file.
pub struct CredentialConfig {
    pub host: String,
    pub user: Option<String>,
    pub access_key: String,
    pub secret_key: String,
    pub region: Option<String>,
    pub s3_type: Option<String>,
    pub secure: Option<bool>,
}

/// The configuration: its credentials.
pub struct Config {
    pub credential: Option<Vec<CredentialConfig>>,
}

pub open spec fn or_else(s: Option<String>, d: Seq<char>) -> Seq<char> {
    match s {
        Some(t) => t@,
        None => d,
    }
}

/// How a set of credentials is offered: `[type] host (region) user (access key)`.
pub open spec fn selection(c: CredentialConfig) -> Seq<char> {
    "["@ + or_else(c.s3_type, "aws"@) + "] "@ + c.host@ + " ("@ + or_else(c.region, "us-east-1"@)
        + ") "@ + or_else(c.user, "user"@) + " ("@ + c.access_key@ + ")"@
}

fn text_or(s: &Option<String>, d: &str) -> (r: String)
    ensures
        r@ == or_else(*s, d@),
{
    match s {
        Some(t) => t.clone(),
        None => d.to_owned(),
    }
}

fn append_to(s: &mut String, t: &str)
    ensures
        final(s)@ == old(s)@ + t@,
{
    s.append(t);
}

fn selection_of(c: &CredentialConfig) -> (r: String)
    ensures
        r@ == selection(*c),
{
    let mut s = "[".to_owned();
    append_to(&mut s, text_or(&c.s3_type, "aws").as_str());
    append_to(&mut s, "] ");
    append_to(&mut s, c.host.as_str());
    append_to(&mut s, " (");
    append_to(&mut s, text_or(&c.region, "us-east-1").as_str());
    append_to(&mut s, ") ");
    append_to(&mut s, text_or(&c.user, "user").as_str());
    append_to(&mut s, " (");
    append_to(&mut s, c.access_key.as_str());
    append_to(&mut s, ")");
    s
}

impl Config {
    /// The line that offers each set of credentials, in order.
    pub fn gen_selections(&self) -> (r: Vec<String>)
        requires
            self.credential is Some,
        ensures
            r.deep_view() == self.credential->Some_0@.map_values(|c: CredentialConfig| selection(c)),
    {
        let creds = match &self.credential {
            Some(c) => c,
            None => {
                return Vec::new();
            },
        };
        let mut out: Vec<String> = Vec::new();
        let mut i: usize = 0;
        while i < creds.len()
            invariant
                i <= creds.len(),
                self.credential == Some(*creds),
                out.deep_view() == creds@.take(i as int).map_values(|c: CredentialConfig| selection(c)),
            decreases creds.len() - i,
        {
            let line = selection_of(&creds[i]);
            let ghost prev = out.deep_view();
            out.push(line);
            assert(out.deep_view() =~= prev.push(selection(creds@[i as int])));
            assert(out.deep_view() =~= creds@.take(i + 1).map_values(|c: CredentialConfig| selection(c)));
            i = i + 1;
        }
        assert(creds@.take(creds.len() as int) =~= creds@);
        out
    }
}

} // verus!
