//! The catalogue of external connectors and the check that an invocation
//! names one of them. Running the connector command is left to the caller.
use vstd::prelude::*;
use crate::text::owned;
use crate::tools::prefixed;

verus! {

#[derive(Debug, Clone)]
pub enum ConnectorError {
    NotAllowed(String),
    Runtime(String),
    InvalidData(String),
}

impl ConnectorError {
    /// The human-readable message of the error.
    pub fn message(&self) -> (m: String)
        ensures
            m@ == connector_error_message(*self),
    {
        match self {
            ConnectorError::NotAllowed(s) => prefixed("connector is not allowed: ", s.as_str()),
            ConnectorError::Runtime(s) => prefixed("connector runtime is unavailable: ", s.as_str()),
            ConnectorError::InvalidData(s) => prefixed("connector returned invalid data: ", s.as_str()),
        }
    }
}

pub open spec fn connector_error_message(e: ConnectorError) -> Seq<char> {
    match e {
        ConnectorError::NotAllowed(s) => "connector is not allowed: "@ + s@,
        ConnectorError::Runtime(s) => "connector runtime is unavailable: "@ + s@,
        ConnectorError::InvalidData(s) => "connector returned invalid data: "@ + s@,
    }
}

#[derive(Debug, Clone, PartialEq, Eq)]
pub struct ConnectorDescriptor {
    pub server: String,
    pub display_name: String,
    pub enabled: bool,
    pub purpose: String,
}

/// The number of connectors in the catalogue.
pub open spec fn catalog_len() -> int {
    17
}

pub open spec fn catalog_server(k: int) -> Seq<char> {
    if k == 0 {
        "github"@
    } else if k == 1 {
        "vercel"@
    } else if k == 2 {
        "supabase"@
    } else if k == 3 {
        "gmail"@
    } else if k == 4 {
        "google-calendar"@
    } else if k == 5 {
        "google-workspace"@
    } else if k == 6 {
        "airtable"@
    } else if k == 7 {
        "apollo"@
    } else if k == 8 {
        "asana"@
    } else if k == 9 {
        "exa"@
    } else if k == 10 {
        "firecrawl"@
    } else if k == 11 {
        "hubspot"@
    } else if k == 12 {
        "hunter"@
    } else if k == 13 {
        "notion"@
    } else if k == 14 {
        "slack"@
    } else if k == 15 {
        "trello"@
    } else {
        "wordpress"@
    }
}

pub open spec fn catalog_display_name(k: int) -> Seq<char> {
    if k == 0 {
        "GitHub"@
    } else if k == 1 {
        "Vercel"@
    } else if k == 2 {
        "Supabase"@
    } else if k == 3 {
        "Gmail"@
    } else if k == 4 {
        "Google Calendar"@
    } else if k == 5 {
        "Google Workspace"@
    } else if k == 6 {
        "Airtable"@
    } else if k == 7 {
        "Apollo"@
    } else if k == 8 {
        "Asana"@
    } else if k == 9 {
        "Exa"@
    } else if k == 10 {
        "Firecrawl"@
    } else if k == 11 {
        "HubSpot"@
    } else if k == 12 {
        "Hunter"@
    } else if k == 13 {
        "Notion"@
    } else if k == 14 {
        "Slack"@
    } else if k == 15 {
        "Trello"@
    } else {
        "WordPress"@
    }
}

pub open spec fn catalog_purpose(k: int) -> Seq<char> {
    if k == 0 {
        "Repositories, issues, pull requests, and code collaboration."@
    } else if k == 1 {
        "Projects, deployments, logs, domains, and production web delivery."@
    } else if k == 2 {
        "Projects, Postgres, migrations, Edge Functions, logs, and advisors."@
    } else if k == 3 {
        "Inbox search, thread reading, labels, drafts, and mail operations."@
    } else if k == 4 {
        "Schedule discovery and calendar event management."@
    } else if k == 5 {
        "Drive, Docs, Sheets, and Workspace content operations."@
    } else if k == 6 {
        "Structured records and lightweight CRM/database operations."@
    } else if k == 7 {
        "Lead and prospect research workflows."@
    } else if k == 8 {
        "Project, task, and team workflow operations."@
    } else if k == 9 {
        "Web and research retrieval for evidence-backed analysis."@
    } else if k == 10 {
        "Web crawling and page extraction for research."@
    } else if k == 11 {
        "CRM contacts, companies, deals, and follow-up workflows."@
    } else if k == 12 {
        "Domain and contact research."@
    } else if k == 13 {
        "Workspace pages, databases, and knowledge management."@
    } else if k == 14 {
        "Team channel search and messaging workflows."@
    } else if k == 15 {
        "Boards, lists, cards, and task follow-up."@
    } else {
        "Site content and publishing workflows."@
    }
}

/// The `k`-th catalogue entry, enabled.
pub open spec fn is_catalog_entry(d: ConnectorDescriptor, k: int) -> bool {
    d.server@ == catalog_server(k) && d.display_name@ == catalog_display_name(k) && d.enabled
        && d.purpose@ == catalog_purpose(k)
}

fn connector(server: &str, display_name: &str, purpose: &str) -> (d: ConnectorDescriptor)
    ensures
        d.server@ == server@,
        d.display_name@ == display_name@,
        d.enabled,
        d.purpose@ == purpose@,
{
    ConnectorDescriptor {
        server: owned(server),
        display_name: owned(display_name),
        enabled: true,
        purpose: owned(purpose),
    }
}

impl ConnectorDescriptor {
    /// An equal copy of the descriptor.
    pub fn duplicate(&self) -> (d: ConnectorDescriptor)
        ensures
            d == *self,
    {
        ConnectorDescriptor {
            server: self.server.clone(),
            display_name: self.display_name.clone(),
            enabled: self.enabled,
            purpose: self.purpose.clone(),
        }
    }
}

/// The connectors that may be invoked: exactly those of the catalogue.
#[derive(Debug, Clone)]
pub struct ConnectorRegistry {
    catalog: Vec<ConnectorDescriptor>,
}

impl ConnectorRegistry {
    pub closed spec fn catalog(&self) -> Seq<ConnectorDescriptor> {
        self.catalog@
    }

    /// The server `server` is in the catalogue.
    pub open spec fn allows(&self, server: Seq<char>) -> bool {
        exists|i: int| 0 <= i < self.catalog().len() && self.catalog()[i].server@ == server
    }

    /// The standard catalogue, every connector enabled.
    pub fn new() -> (r: ConnectorRegistry)
        ensures
            r.catalog().len() == catalog_len(),
            forall|k: int| 0 <= k < catalog_len() ==> is_catalog_entry(#[trigger] r.catalog()[k], k),
    {
        let mut catalog: Vec<ConnectorDescriptor> = Vec::new();
        catalog.push(connector("github", "GitHub", "Repositories, issues, pull requests, and code collaboration."));
        catalog.push(connector("vercel", "Vercel", "Projects, deployments, logs, domains, and production web delivery."));
        catalog.push(connector("supabase", "Supabase", "Projects, Postgres, migrations, Edge Functions, logs, and advisors."));
        catalog.push(connector("gmail", "Gmail", "Inbox search, thread reading, labels, drafts, and mail operations."));
        catalog.push(connector("google-calendar", "Google Calendar", "Schedule discovery and calendar event management."));
        catalog.push(connector("google-workspace", "Google Workspace", "Drive, Docs, Sheets, and Workspace content operations."));
        catalog.push(connector("airtable", "Airtable", "Structured records and lightweight CRM/database operations."));
        catalog.push(connector("apollo", "Apollo", "Lead and prospect research workflows."));
        catalog.push(connector("asana", "Asana", "Project, task, and team workflow operations."));
        catalog.push(connector("exa", "Exa", "Web and research retrieval for evidence-backed analysis."));
        catalog.push(connector("firecrawl", "Firecrawl", "Web crawling and page extraction for research."));
        catalog.push(connector("hubspot", "HubSpot", "CRM contacts, companies, deals, and follow-up workflows."));
        catalog.push(connector("hunter", "Hunter", "Domain and contact research."));
        catalog.push(connector("notion", "Notion", "Workspace pages, databases, and knowledge management."));
        catalog.push(connector("slack", "Slack", "Team channel search and messaging workflows."));
        catalog.push(connector("trello", "Trello", "Boards, lists, cards, and task follow-up."));
        catalog.push(connector("wordpress", "WordPress", "Site content and publishing workflows."));
        ConnectorRegistry { catalog }
    }

    /// The catalogue, in order.
    pub fn descriptors(&self) -> (ds: Vec<ConnectorDescriptor>)
        ensures
            ds@ == self.catalog(),
    {
        let mut ds: Vec<ConnectorDescriptor> = Vec::new();
        let mut i: usize = 0;
        while i < self.catalog.len()
            invariant
                i <= self.catalog@.len(),
                ds@ == self.catalog@.take(i as int),
            decreases self.catalog@.len() - i,
        {
            ds.push(self.catalog[i].duplicate());
            assert(ds@ =~= self.catalog@.take(i + 1));
            i = i + 1;
        }
        assert(self.catalog@.take(self.catalog@.len() as int) =~= self.catalog@);
        ds
    }

    /// Whether `server` may be invoked.
    pub fn is_allowed(&self, server: &str) -> (r: bool)
        ensures
            r == self.allows(server@),
    {
        let key = owned(server);
        let mut i: usize = 0;
        while i < self.catalog.len()
            invariant
                i <= self.catalog@.len(),
                key@ == server@,
                forall|k: int| 0 <= k < i ==> self.catalog@[k].server@ != server@,
            decreases self.catalog@.len() - i,
        {
            if self.catalog[i].server == key {
                assert(self.catalog()[i as int].server@ == server@);
                return true;
            }
            i = i + 1;
        }
        false
    }

    /// `NotAllowed(server)` unless the server is in the catalogue.
    pub fn check_server(&self, server: &str) -> (r: Result<(), ConnectorError>)
        ensures
            r is Ok <==> self.allows(server@),
            r matches Err(e) ==> (e matches ConnectorError::NotAllowed(s) && s@ == server@),
    {
        if self.is_allowed(server) {
            Ok(())
        } else {
            Err(ConnectorError::NotAllowed(owned(server)))
        }
    }

    /// The arguments of the connector command for one call.
    pub fn command_args(tool: &str, server: &str, payload: &str) -> (args: Vec<String>)
        ensures
            args@.len() == 7,
            args@[0]@ == "tool"@,
            args@[1]@ == "call"@,
            args@[2]@ == tool@,
            args@[3]@ == "--server"@,
            args@[4]@ == server@,
            args@[5]@ == "--input"@,
            args@[6]@ == payload@,
    {
        let mut args = Vec::new();
        args.push(owned("tool"));
        args.push(owned("call"));
        args.push(owned(tool));
        args.push(owned("--server"));
        args.push(owned(server));
        args.push(owned("--input"));
        args.push(owned(payload));
        args
    }
}

impl Default for ConnectorRegistry {
    fn default() -> (r: ConnectorRegistry)
        ensures
            r.catalog().len() == catalog_len(),
    {
        ConnectorRegistry::new()
    }
}

} // verus!
