//! The container-compose manifest: typed service definitions, the
//! host-port extraction rules, and the infrastructure-image filter.

use vstd::prelude::*;
use vstd::string::StringExecFns;
use crate::kv::pairs_view;
use crate::models::view_opt_str;
use crate::text::{
    char_end, char_find_end, chars_of, lower_seq, lower_vec, seq_contains, spec_parse_u16,
    chars_contain, parse_u16_range,
};

verus! {

/// Build configuration of one compose service: a bare context string or a
/// structured object.
#[derive(Debug, Clone)]
pub enum DockerBuild {
    Simple(String),
    Complex {
        context: Option<String>,
        dockerfile: Option<String>,
        args: Vec<(String, String)>,
        target: Option<String>,
    },
}

/// Ghost image of a build configuration.
pub ghost enum DockerBuildView {
    Simple(Seq<char>),
    Complex {
        context: Option<Seq<char>>,
        dockerfile: Option<Seq<char>>,
        args: Seq<(Seq<char>, Seq<char>)>,
        target: Option<Seq<char>>,
    },
}

impl View for DockerBuild {
    type V = DockerBuildView;

    open spec fn view(&self) -> DockerBuildView {
        match self {
            DockerBuild::Simple(s) => DockerBuildView::Simple(s@),
            DockerBuild::Complex { context, dockerfile, args, target } => (
            DockerBuildView::Complex {
                context: view_opt_str(*context),
                dockerfile: view_opt_str(*dockerfile),
                args: pairs_view(args@),
                target: view_opt_str(*target),
            }),
        }
    }
}

/// Environment variables of one compose service.
#[derive(Debug, Clone)]
pub enum DockerEnvironment {
    Array(Vec<String>),
    Pairs(Vec<(String, String)>),
}

/// Ghost image of the environment.
pub ghost enum DockerEnvironmentView {
    Array(Seq<Seq<char>>),
    Pairs(Seq<(Seq<char>, Seq<char>)>),
}

impl View for DockerEnvironment {
    type V = DockerEnvironmentView;

    open spec fn view(&self) -> DockerEnvironmentView {
        match self {
            DockerEnvironment::Array(a) => DockerEnvironmentView::Array(
                a@.map_values(|s: String| s@),
            ),
            DockerEnvironment::Pairs(m) => DockerEnvironmentView::Pairs(pairs_view(m@)),
        }
    }
}

/// Command of one compose service: a shell string or an argument list.
#[derive(Debug, Clone)]
pub enum DockerCommand {
    Str(String),
    Array(Vec<String>),
}

/// Ghost image of a command.
pub ghost enum DockerCommandView {
    Str(Seq<char>),
    Array(Seq<Seq<char>>),
}

impl View for DockerCommand {
    type V = DockerCommandView;

    open spec fn view(&self) -> DockerCommandView {
        match self {
            DockerCommand::Str(s) => DockerCommandView::Str(s@),
            DockerCommand::Array(a) => DockerCommandView::Array(a@.map_values(|s: String| s@)),
        }
    }
}

/// Ghost image of one compose service.
pub ghost struct DockerServiceView {
    pub image: Option<Seq<char>>,
    pub build: Option<DockerBuildView>,
    pub ports: Seq<Seq<char>>,
    pub environment: Option<DockerEnvironmentView>,
    pub volumes: Option<Seq<Seq<char>>>,
    pub command: Option<DockerCommandView>,
    pub depends_on: Option<Seq<Seq<char>>>,
    pub restart: Option<Seq<char>>,
    pub working_dir: Option<Seq<char>>,
    pub container_name: Option<Seq<char>>,
}

/// A service in the compose file.
#[derive(Debug, Clone)]
pub struct DockerService {
    pub image: Option<String>,
    pub build: Option<DockerBuild>,
    pub ports: Vec<String>,
    pub environment: Option<DockerEnvironment>,
    pub volumes: Option<Vec<String>>,
    pub command: Option<DockerCommand>,
    pub depends_on: Option<Vec<String>>,
    pub restart: Option<String>,
    pub working_dir: Option<String>,
    pub container_name: Option<String>,
}

impl View for DockerService {
    type V = DockerServiceView;

    open spec fn view(&self) -> DockerServiceView {
        DockerServiceView {
            image: view_opt_str(self.image),
            build: (match &self.build {
                Some(b) => Some(b@),
                None => None,
            }),
            ports: self.ports@.map_values(|s: String| s@),
            environment: (match &self.environment {
                Some(e) => Some(e@),
                None => None,
            }),
            volumes: (match self.volumes {
                Some(v) => Some(v@.map_values(|s: String| s@)),
                None => None,
            }),
            command: (match &self.command {
                Some(c) => Some(c@),
                None => None,
            }),
            depends_on: (match self.depends_on {
                Some(d) => Some(d@.map_values(|s: String| s@)),
                None => None,
            }),
            restart: view_opt_str(self.restart),
            working_dir: view_opt_str(self.working_dir),
            container_name: view_opt_str(self.container_name),
        }
    }
}

impl Default for DockerService {
    /// A service with nothing declared.
    fn default() -> (r: DockerService)
        ensures
            r@.image is None,
            r@.build is None,
            r@.ports.len() == 0,
            r@.environment is None,
            r@.volumes is None,
            r@.command is None,
            r@.depends_on is None,
            r@.restart is None,
            r@.working_dir is None,
            r@.container_name is None,
    {
        let r = DockerService {
            image: None,
            build: None,
            ports: Vec::new(),
            environment: None,
            volumes: None,
            command: None,
            depends_on: None,
            restart: None,
            working_dir: None,
            container_name: None,
        };
        r
    }
}

/// Ghost image of a compose file.
pub ghost struct DockerComposeView {
    pub version: Option<Seq<char>>,
    pub services: Seq<(Seq<char>, DockerServiceView)>,
}

/// Parsed container-compose structure: the declared services in file
/// order.
#[derive(Debug, Clone)]
pub struct DockerCompose {
    pub version: Option<String>,
    pub services: Vec<(String, DockerService)>,
}

impl View for DockerCompose {
    type V = DockerComposeView;

    open spec fn view(&self) -> DockerComposeView {
        DockerComposeView {
            version: view_opt_str(self.version),
            services: self.services@.map_values(|p: (String, DockerService)| (p.0@, p.1@)),
        }
    }
}

/// The host-facing port of one port mapping: `"3000"` gives 3000,
/// `"8080:3000"` gives 8080, `"127.0.0.1:8080:3000"` gives 8080, and any
/// other shape (or an unparsable number) gives nothing.
pub open spec fn spec_host_port(s: Seq<char>) -> Option<u16> {
    let k1 = char_end(s, ':', 0);
    if k1 == s.len() {
        spec_parse_u16(s)
    } else {
        let k2 = char_end(s, ':', k1 + 1);
        if k2 == s.len() {
            spec_parse_u16(s.subrange(0, k1))
        } else {
            let k3 = char_end(s, ':', k2 + 1);
            if k3 == s.len() {
                spec_parse_u16(s.subrange(k1 + 1, k2))
            } else {
                None
            }
        }
    }
}

/// The first exposed port of a service: the host port of its first
/// mapping, if the service declares any mapping at all.
pub open spec fn spec_first_port(d: DockerServiceView) -> Option<u16> {
    if d.ports.len() == 0 {
        None
    } else {
        spec_host_port(d.ports[0])
    }
}

/// The build context of a service.
pub open spec fn spec_build_context(d: DockerServiceView) -> Option<Seq<char>> {
    match d.build {
        Some(DockerBuildView::Simple(p)) => Some(p),
        Some(DockerBuildView::Complex { context, .. }) => context,
        None => None,
    }
}

/// The command joined into one shell string, parts separated by spaces.
pub open spec fn spec_join_space(parts: Seq<Seq<char>>) -> Seq<char>
    decreases parts.len(),
{
    if parts.len() == 0 {
        Seq::empty()
    } else if parts.len() == 1 {
        parts[0]
    } else {
        spec_join_space(parts.drop_last()) + " "@ + parts.last()
    }
}

/// The command of a service as one string.
pub open spec fn spec_command_string(d: DockerServiceView) -> Option<Seq<char>> {
    match d.command {
        Some(DockerCommandView::Str(c)) => Some(c),
        Some(DockerCommandView::Array(parts)) => Some(spec_join_space(parts)),
        None => None,
    }
}

/// The image names that mark a database container.
pub open spec fn spec_is_database(d: DockerServiceView) -> bool {
    match d.image {
        Some(img) => {
            let low = lower_seq(img);
            seq_contains(low, "postgres"@) || seq_contains(low, "mysql"@) || seq_contains(
                low,
                "mariadb"@,
            ) || seq_contains(low, "mongo"@) || seq_contains(low, "mongodb"@) || seq_contains(
                low,
                "redis"@,
            ) || seq_contains(low, "memcached"@) || seq_contains(low, "elasticsearch"@)
                || seq_contains(low, "cassandra"@) || seq_contains(low, "couchdb"@)
                || seq_contains(low, "neo4j"@) || seq_contains(low, "influxdb"@) || seq_contains(
                low,
                "timescaledb"@,
            ) || seq_contains(low, "clickhouse"@)
        },
        None => false,
    }
}

/// The image names that mark a message-queue container.
pub open spec fn spec_is_message_queue(d: DockerServiceView) -> bool {
    match d.image {
        Some(img) => {
            let low = lower_seq(img);
            seq_contains(low, "rabbitmq"@) || seq_contains(low, "kafka"@) || seq_contains(
                low,
                "nats"@,
            ) || seq_contains(low, "activemq"@) || seq_contains(low, "zeromq"@) || seq_contains(
                low,
                "pulsar"@,
            )
        },
        None => false,
    }
}

/// Infrastructure containers carry application data, not application
/// code: databases and message queues.
pub open spec fn spec_is_infrastructure(d: DockerServiceView) -> bool {
    spec_is_database(d) || spec_is_message_queue(d)
}

/// Does the lowercased image name contain the needle?
fn image_contains(low: &Vec<char>, needle: &str) -> (r: bool)
    ensures
        r == seq_contains(low@, needle@),
{
    let n = chars_of(needle);
    chars_contain(low, &n)
}

impl DockerService {
    /// Get the first exposed port (host port).
    pub fn get_first_port(&self) -> (r: Option<u16>)
        ensures
            r == spec_first_port(self@),
    {
        if self.ports.len() == 0 {
            return None;
        }
        let s = chars_of(self.ports[0].as_str());
        let n = s.len();
        proof {
            assert(self@.ports[0] == self.ports@[0]@);
        }
        let k1 = char_find_end(&s, ':', 0);
        if k1 == n {
            proof {
                assert(s@.subrange(0, n as int) =~= s@);
            }
            return parse_u16_range(&s, 0, n);
        }
        let k2 = char_find_end(&s, ':', k1 + 1);
        if k2 == n {
            return parse_u16_range(&s, 0, k1);
        }
        let k3 = char_find_end(&s, ':', k2 + 1);
        if k3 == n {
            return parse_u16_range(&s, k1 + 1, k2);
        }
        None
    }

    /// Get the build context path.
    pub fn get_build_context(&self) -> (r: Option<String>)
        ensures
            view_opt_str(r) == spec_build_context(self@),
    {
        match &self.build {
            Some(DockerBuild::Simple(path)) => Some(path.clone()),
            Some(DockerBuild::Complex { context, .. }) => match context {
                Some(c) => Some(c.clone()),
                None => None,
            },
            None => None,
        }
    }

    /// Get the command as a string.
    pub fn get_command_string(&self) -> (r: Option<String>)
        ensures
            view_opt_str(r) == spec_command_string(self@),
    {
        match &self.command {
            Some(DockerCommand::Str(cmd)) => Some(cmd.clone()),
            Some(DockerCommand::Array(parts)) => Some(join_space(parts)),
            None => None,
        }
    }

    /// Check if this is a database service.
    pub fn is_database(&self) -> (r: bool)
        ensures
            r == spec_is_database(self@),
    {
        match &self.image {
            Some(image) => {
                let chars = chars_of(image.as_str());
                let low = lower_vec(&chars);
                image_contains(&low, "postgres") || image_contains(&low, "mysql")
                    || image_contains(&low, "mariadb") || image_contains(&low, "mongo")
                    || image_contains(&low, "mongodb") || image_contains(&low, "redis")
                    || image_contains(&low, "memcached") || image_contains(&low, "elasticsearch")
                    || image_contains(&low, "cassandra") || image_contains(&low, "couchdb")
                    || image_contains(&low, "neo4j") || image_contains(&low, "influxdb")
                    || image_contains(&low, "timescaledb") || image_contains(&low, "clickhouse")
            },
            None => false,
        }
    }

    /// Check if this is a message queue service.
    pub fn is_message_queue(&self) -> (r: bool)
        ensures
            r == spec_is_message_queue(self@),
    {
        match &self.image {
            Some(image) => {
                let chars = chars_of(image.as_str());
                let low = lower_vec(&chars);
                image_contains(&low, "rabbitmq") || image_contains(&low, "kafka")
                    || image_contains(&low, "nats") || image_contains(&low, "activemq")
                    || image_contains(&low, "zeromq") || image_contains(&low, "pulsar")
            },
            None => false,
        }
    }

    /// Check if this is an infrastructure service (not application code).
    pub fn is_infrastructure(&self) -> (r: bool)
        ensures
            r == spec_is_infrastructure(self@),
    {
        self.is_database() || self.is_message_queue()
    }
}

impl DockerService {
    /// A field-for-field copy that keeps the ghost image.
    pub fn clone_service(&self) -> (r: DockerService)
        ensures
            r@ == self@,
    {
        let r = DockerService {
            image: clone_opt(&self.image),
            build: (match &self.build {
                Some(DockerBuild::Simple(s)) => Some(DockerBuild::Simple(s.clone())),
                Some(DockerBuild::Complex { context, dockerfile, args, target }) => Some(
                    DockerBuild::Complex {
                        context: clone_opt(context),
                        dockerfile: clone_opt(dockerfile),
                        args: clone_pair_list(args),
                        target: clone_opt(target),
                    },
                ),
                None => None,
            }),
            ports: crate::package_json::clone_strings(&self.ports),
            environment: (match &self.environment {
                Some(DockerEnvironment::Array(a)) => Some(
                    DockerEnvironment::Array(crate::package_json::clone_strings(a)),
                ),
                Some(DockerEnvironment::Pairs(m)) => Some(
                    DockerEnvironment::Pairs(clone_pair_list(m)),
                ),
                None => None,
            }),
            volumes: (match &self.volumes {
                Some(v) => Some(crate::package_json::clone_strings(v)),
                None => None,
            }),
            command: (match &self.command {
                Some(DockerCommand::Str(s)) => Some(DockerCommand::Str(s.clone())),
                Some(DockerCommand::Array(a)) => Some(
                    DockerCommand::Array(crate::package_json::clone_strings(a)),
                ),
                None => None,
            }),
            depends_on: (match &self.depends_on {
                Some(v) => Some(crate::package_json::clone_strings(v)),
                None => None,
            }),
            restart: clone_opt(&self.restart),
            working_dir: clone_opt(&self.working_dir),
            container_name: clone_opt(&self.container_name),
        };
        r
    }
}

/// A copy of an optional string, by contents.
fn clone_opt(v: &Option<String>) -> (r: Option<String>)
    ensures
        view_opt_str(r) == view_opt_str(*v),
{
    match v {
        Some(s) => Some(s.clone()),
        None => None,
    }
}

/// A copy of a pair table, by contents.
fn clone_pair_list(v: &Vec<(String, String)>) -> (r: Vec<(String, String)>)
    ensures
        pairs_view(r@) == pairs_view(v@),
{
    let mut r: Vec<(String, String)> = Vec::new();
    let n = v.len();
    let mut i: usize = 0;
    while i < n
        invariant
            n == v@.len(),
            i <= n,
            r@.len() == i,
            forall|j: int| 0 <= j < i ==> r@[j].0@ == v@[j].0@ && r@[j].1@ == v@[j].1@,
        decreases n - i,
    {
        r.push((v[i].0.clone(), v[i].1.clone()));
        i = i + 1;
    }
    proof {
        assert(pairs_view(r@) =~= pairs_view(v@));
    }
    r
}

impl DockerCompose {
    /// The names of the declared services, in file order.
    pub fn get_service_names(&self) -> (r: Vec<String>)
        ensures
            r@.map_values(|s: String| s@) == self@.services.map_values(
                |p: (Seq<char>, DockerServiceView)| p.0,
            ),
    {
        let mut r: Vec<String> = Vec::new();
        let n = self.services.len();
        let mut i: usize = 0;
        while i < n
            invariant
                n == self.services@.len(),
                i <= n,
                r@.len() == i,
                forall|j: int| 0 <= j < i ==> r@[j]@ == self.services@[j].0@,
            decreases n - i,
        {
            r.push(self.services[i].0.clone());
            i = i + 1;
        }
        proof {
            assert(r@.map_values(|s: String| s@) =~= self@.services.map_values(
                |p: (Seq<char>, DockerServiceView)| p.0,
            ));
        }
        r
    }

    /// The declared service with the given name, if any.
    pub fn get_service(&self, name: &str) -> (r: Option<&DockerService>)
        ensures
            match r {
                Some(d) => exists|i: int|
                    0 <= i < self@.services.len() && (#[trigger] self@.services[i]).0 == name@
                        && self@.services[i].1 == d@,
                None => forall|i: int|
                    0 <= i < self@.services.len() ==> (#[trigger] self@.services[i]).0 != name@,
            },
    {
        let n = self.services.len();
        let mut i: usize = 0;
        while i < n
            invariant
                n == self.services@.len(),
                i <= n,
                forall|j: int| 0 <= j < i ==> (#[trigger] self@.services[j]).0 != name@,
            decreases n - i,
        {
            if crate::text::str_eq(self.services[i].0.as_str(), name) {
                proof {
                    assert(self@.services[i as int].0 == self.services@[i as int].0@);
                }
                return Some(&self.services[i].1);
            }
            proof {
                assert(self@.services[i as int].0 == self.services@[i as int].0@);
            }
            i = i + 1;
        }
        None
    }
}

/// Join string parts with single spaces.
pub fn join_space(parts: &Vec<String>) -> (r: String)
    ensures
        r@ == spec_join_space(parts@.map_values(|s: String| s@)),
{
    let ghost pv = parts@.map_values(|s: String| s@);
    let mut r = String::new();
    let n = parts.len();
    let mut i: usize = 0;
    while i < n
        invariant
            n == parts@.len(),
            pv == parts@.map_values(|s: String| s@),
            pv.len() == n,
            i <= n,
            r@ == spec_join_space(pv.subrange(0, i as int)),
        decreases n - i,
    {
        if i > 0 {
            r.append(" ");
        }
        r.append(parts[i].as_str());
        proof {
            let prev = pv.subrange(0, i as int);
            let cur = pv.subrange(0, i + 1);
            assert(cur.drop_last() =~= prev);
            assert(cur.last() == pv[i as int]);
            if i == 0 {
                assert(spec_join_space(prev) =~= Seq::<char>::empty());
                assert(r@ =~= pv[0]);
                assert(cur.len() == 1);
                assert(cur[0] == pv[0]);
            }
        }
        i = i + 1;
    }
    proof {
        assert(pv.subrange(0, n as int) =~= pv);
    }
    r
}

} // verus!
