//! The compose document model and the plan compiler: the pure transformation
//! from a document and its two topology switches into one composer command
//! plus one `run` command per service.

use vstd::prelude::*;

verus! {

use crate::config::UpArgument;

/// One declared service: its image and the resources it asks for.
pub struct Service {
    pub image: String,
    pub ports: Vec<String>,
    pub volumes: Vec<String>,
    /// Environment entries as ordered name/value pairs. The decoding boundary
    /// hands them over in a fixed order (lexicographic by name) so that
    /// planning is deterministic.
    pub environment: Vec<(String, String)>,
    /// Restart policy; the empty string means none was declared.
    pub restart: String,
}

/// The mathematical value of a `Service`.
#[verifier::ext_equal]
pub struct ServiceView {
    pub image: Seq<char>,
    pub ports: Seq<Seq<char>>,
    pub volumes: Seq<Seq<char>>,
    pub environment: Seq<(Seq<char>, Seq<char>)>,
    pub restart: Seq<char>,
}

impl View for Service {
    type V = ServiceView;

    open spec fn view(&self) -> ServiceView {
        ServiceView {
            image: self.image@,
            ports: self.ports.deep_view(),
            volumes: self.volumes.deep_view(),
            environment: self.environment.deep_view(),
            restart: self.restart@,
        }
    }
}

impl DeepView for Service {
    type V = ServiceView;

    open spec fn deep_view(&self) -> ServiceView {
        self@
    }
}

/// The whole compose document together with the two topology switches.
pub struct ContainerCompose {
    pub version: String,
    /// Service name and service, in the order planning will follow.
    pub services: Vec<(String, Service)>,
    /// The identity that scopes pod, network and container names.
    pub pod_name: String,
    /// True selects the shared-network topology, false the shared-pod one.
    pub network: bool,
    /// True runs every container in the background.
    pub detach: bool,
}

/// The mathematical value of a `ContainerCompose`.
#[verifier::ext_equal]
pub struct ComposeView {
    pub version: Seq<char>,
    pub services: Seq<(Seq<char>, ServiceView)>,
    pub pod_name: Seq<char>,
    pub network: bool,
    pub detach: bool,
}

impl View for ContainerCompose {
    type V = ComposeView;

    open spec fn view(&self) -> ComposeView {
        ComposeView {
            version: self.version@,
            services: self.services.deep_view(),
            pod_name: self.pod_name@,
            network: self.network,
            detach: self.detach,
        }
    }
}

/// One `<flag> <item>` pair per item, in order.
pub open spec fn spec_flag_pairs(flag: Seq<char>, items: Seq<Seq<char>>) -> Seq<Seq<char>>
    decreases items.len(),
{
    if items.len() == 0 {
        Seq::empty()
    } else {
        spec_flag_pairs(flag, items.drop_last()) + seq![flag, items.last()]
    }
}

/// One `-e <NAME>=<value>` pair per environment entry, in order.
pub open spec fn spec_env_pairs(env: Seq<(Seq<char>, Seq<char>)>) -> Seq<Seq<char>>
    decreases env.len(),
{
    if env.len() == 0 {
        Seq::empty()
    } else {
        spec_env_pairs(env.drop_last()) + seq!["-e"@, env.last().0 + "="@ + env.last().1]
    }
}

/// The `-p <port>` pairs of every service, in service order.
pub open spec fn spec_all_port_pairs(services: Seq<(Seq<char>, ServiceView)>) -> Seq<Seq<char>>
    decreases services.len(),
{
    if services.len() == 0 {
        Seq::empty()
    } else {
        spec_all_port_pairs(services.drop_last()) + spec_flag_pairs("-p"@, services.last().1.ports)
    }
}

/// The shared network's name: the identity with the `_network` suffix.
pub open spec fn spec_network_name(pod_name: Seq<char>) -> Seq<char> {
    pod_name + "_network"@
}

/// The shared-pod composer command: create the pod under the identity and
/// publish every port of every service on it.
pub open spec fn spec_pod_command(v: ComposeView) -> Seq<Seq<char>> {
    seq!["pod"@, "create"@, "--name"@, v.pod_name] + spec_all_port_pairs(v.services)
}

/// The shared-network composer command; ports are attached per container
/// instead, so none appear here.
pub open spec fn spec_network_command(v: ComposeView) -> Seq<Seq<char>> {
    seq!["network"@, "create"@, spec_network_name(v.pod_name)]
}

/// The one composer command of a plan.
pub open spec fn spec_composer(v: ComposeView) -> Seq<Seq<char>> {
    if v.network {
        spec_network_command(v)
    } else {
        spec_pod_command(v)
    }
}

/// `--restart <policy>` when a policy was declared, nothing otherwise.
pub open spec fn spec_restart_tokens(restart: Seq<char>) -> Seq<Seq<char>> {
    if restart.len() == 0 {
        Seq::empty()
    } else {
        seq!["--restart"@, restart]
    }
}

/// Naming and attachment. Under the shared network the container keeps the
/// service's own name, joins the network and publishes its ports itself; in
/// the shared pod it is named `<identity>_<service>` and joins the pod.
pub open spec fn spec_naming_tokens(v: ComposeView, name: Seq<char>, s: ServiceView) -> Seq<Seq<char>> {
    if v.network {
        seq!["--name"@, name, "--network"@, spec_network_name(v.pod_name)]
            + spec_flag_pairs("-p"@, s.ports)
    } else {
        seq!["--name"@, v.pod_name + "_"@ + name, "--pod"@, v.pod_name]
    }
}

/// The trailing background-run flag, present exactly in detach mode.
pub open spec fn spec_detach_tokens(detach: bool) -> Seq<Seq<char>> {
    if detach {
        seq!["-d"@]
    } else {
        Seq::empty()
    }
}

/// One service's `run` command. The image is always the last token: the
/// runtime requires every flag to precede the image reference.
pub open spec fn spec_container(v: ComposeView, name: Seq<char>, s: ServiceView) -> Seq<Seq<char>> {
    seq!["run"@] + spec_flag_pairs("--volume"@, s.volumes) + spec_env_pairs(s.environment)
        + spec_restart_tokens(s.restart) + spec_naming_tokens(v, name, s)
        + spec_detach_tokens(v.detach) + seq![s.image]
}

/// One `run` command per service, in document order.
pub open spec fn spec_containers(v: ComposeView) -> Seq<Seq<Seq<char>>> {
    v.services.map_values(|p: (Seq<char>, ServiceView)| spec_container(v, p.0, p.1))
}

proof fn lemma_contains_take_step<A>(s: Seq<A>, k: int, x: A)
    requires
        0 <= k < s.len(),
    ensures
        s.take(k + 1).contains(x) <==> (s.take(k).contains(x) || s[k] == x),
{
    if s.take(k + 1).contains(x) {
        let t = choose|t: int| 0 <= t < s.take(k + 1).len() && #[trigger] s.take(k + 1)[t] == x;
        if t < k {
            assert(s.take(k)[t] == x);
            assert(s.take(k).contains(x));
        } else {
            assert(s.take(k + 1)[t] == s[k]);
        }
    }
    if s.take(k).contains(x) {
        let t = choose|t: int| 0 <= t < s.take(k).len() && #[trigger] s.take(k)[t] == x;
        assert(s.take(k + 1)[t] == x);
        assert(s.take(k + 1).contains(x));
    }
    if s[k] == x {
        assert(s.take(k + 1)[k] == x);
        assert(s.take(k + 1).contains(x));
    }
}

proof fn lemma_flag_pairs_snoc(flag: Seq<char>, items: Seq<Seq<char>>, j: int)
    requires
        0 <= j < items.len(),
    ensures
        spec_flag_pairs(flag, items.take(j + 1)) == spec_flag_pairs(flag, items.take(j)) + seq![
            flag,
            items[j],
        ],
{
    assert(items.take(j + 1).drop_last() =~= items.take(j));
    assert(items.take(j + 1).last() == items[j]);
}

proof fn lemma_env_pairs_snoc(env: Seq<(Seq<char>, Seq<char>)>, j: int)
    requires
        0 <= j < env.len(),
    ensures
        spec_env_pairs(env.take(j + 1)) == spec_env_pairs(env.take(j)) + seq![
            "-e"@,
            env[j].0 + "="@ + env[j].1,
        ],
{
    assert(env.take(j + 1).drop_last() =~= env.take(j));
    assert(env.take(j + 1).last() == env[j]);
}

proof fn lemma_all_port_pairs_snoc(services: Seq<(Seq<char>, ServiceView)>, i: int)
    requires
        0 <= i < services.len(),
    ensures
        spec_all_port_pairs(services.take(i + 1)) == spec_all_port_pairs(services.take(i))
            + spec_flag_pairs("-p"@, services[i].1.ports),
{
    assert(services.take(i + 1).drop_last() =~= services.take(i));
    assert(services.take(i + 1).last() == services[i]);
}


/// Law: a plan is exactly one composer command plus one container command
/// per service of the document.
pub proof fn lemma_plan_shape(v: ComposeView)
    ensures
        spec_containers(v).len() == v.services.len(),
        spec_composer(v).len() >= 3,
{
}

/// Exact shape of a flag/item pair list: twice as many tokens as items, the
/// flag at every even position and the matching item right after it.
pub proof fn lemma_flag_pairs_shape(flag: Seq<char>, items: Seq<Seq<char>>)
    ensures
        spec_flag_pairs(flag, items).len() == 2 * items.len(),
        forall|j: int|
            0 <= j < 2 * items.len() && j % 2 == 0 ==> #[trigger] spec_flag_pairs(flag, items)[j]
                == flag,
        forall|j: int|
            0 <= j < 2 * items.len() && j % 2 == 1 ==> #[trigger] spec_flag_pairs(flag, items)[j]
                == items[j / 2],
    decreases items.len(),
{
    if items.len() > 0 {
        lemma_flag_pairs_shape(flag, items.drop_last());
    }
}

/// The collected port tokens of a document are `-p <port>` pairs and nothing
/// else: an even count, with `-p` at every even position.
pub proof fn lemma_all_port_pairs_shape(services: Seq<(Seq<char>, ServiceView)>)
    ensures
        spec_all_port_pairs(services).len() % 2 == 0,
        forall|j: int|
            0 <= j < spec_all_port_pairs(services).len() && j % 2 == 0
                ==> #[trigger] spec_all_port_pairs(services)[j] == "-p"@,
    decreases services.len(),
{
    if services.len() > 0 {
        lemma_all_port_pairs_shape(services.drop_last());
        lemma_flag_pairs_shape("-p"@, services.last().1.ports);
    }
}

/// Law: the image reference is the last token of every container command,
/// whatever the service declares and whichever switches are set.
pub proof fn lemma_image_last(v: ComposeView, i: int)
    requires
        0 <= i < v.services.len(),
    ensures
        spec_containers(v)[i].len() > 0,
        spec_containers(v)[i].last() == v.services[i].1.image,
{
    assert(spec_containers(v)[i] == spec_container(v, v.services[i].0, v.services[i].1));
}

/// Law: the shared-pod composer begins `pod create --name <identity>` and is
/// followed only by `-p <port>` pairs; the shared-network composer is exactly
/// `network create <identity>_network`, with no port tokens.
pub proof fn lemma_composer_shape(v: ComposeView)
    ensures
        !v.network ==> spec_composer(v).len() >= 4,
        !v.network ==> spec_composer(v).take(4) == seq!["pod"@, "create"@, "--name"@, v.pod_name],
        !v.network ==> spec_composer(v).skip(4) == spec_all_port_pairs(v.services),
        !v.network ==> spec_all_port_pairs(v.services).len() % 2 == 0,
        !v.network ==> forall|j: int|
            4 <= j < spec_composer(v).len() && (j - 4) % 2 == 0 ==> #[trigger] spec_composer(v)[j]
                == "-p"@,
        v.network ==> spec_composer(v) == seq!["network"@, "create"@, spec_network_name(v.pod_name)],
{
    if !v.network {
        lemma_all_port_pairs_shape(v.services);
        assert(spec_composer(v).take(4) =~= seq!["pod"@, "create"@, "--name"@, v.pod_name]);
        assert(spec_composer(v).skip(4) =~= spec_all_port_pairs(v.services));
    }
}

/// Law: turning the detach switch on appends exactly one `-d` token, directly
/// before the image, and changes nothing else in a container command.
pub proof fn lemma_detach_toggle(v0: ComposeView, v1: ComposeView, name: Seq<char>, s: ServiceView)
    requires
        v0.detach == false,
        v1.detach == true,
        v1.network == v0.network,
        v1.pod_name == v0.pod_name,
        v1.services == v0.services,
        v1.version == v0.version,
    ensures
        spec_container(v1, name, s).len() == spec_container(v0, name, s).len() + 1,
        spec_container(v0, name, s).last() == s.image,
        spec_container(v1, name, s).last() == s.image,
        spec_container(v1, name, s) == spec_container(v0, name, s).drop_last() + seq![
            "-d"@,
            s.image,
        ],
{
    assert(spec_naming_tokens(v1, name, s) =~= spec_naming_tokens(v0, name, s));
    assert(spec_container(v1, name, s) =~= spec_container(v0, name, s).drop_last() + seq![
        "-d"@,
        s.image,
    ]);
}

/// Law: switching to the shared-network topology renames the container from
/// `<identity>_<service>` to the service's own name, replaces the
/// `--pod <identity>` pair by `--network <identity>_network` plus the
/// service's own `-p <port>` pairs, and changes nothing else.
pub proof fn lemma_network_toggle(v0: ComposeView, v1: ComposeView, name: Seq<char>, s: ServiceView)
    requires
        v0.network == false,
        v1.network == true,
        v1.detach == v0.detach,
        v1.pod_name == v0.pod_name,
        v1.services == v0.services,
        v1.version == v0.version,
    ensures
        ({
            let head = seq!["run"@] + spec_flag_pairs("--volume"@, s.volumes) + spec_env_pairs(
                s.environment,
            ) + spec_restart_tokens(s.restart);
            let tail = spec_detach_tokens(v0.detach) + seq![s.image];
            spec_container(v0, name, s) == head + (seq![
                "--name"@,
                v0.pod_name + "_"@ + name,
                "--pod"@,
                v0.pod_name,
            ]) + tail
        }),
        ({
            let head = seq!["run"@] + spec_flag_pairs("--volume"@, s.volumes) + spec_env_pairs(
                s.environment,
            ) + spec_restart_tokens(s.restart);
            let tail = spec_detach_tokens(v0.detach) + seq![s.image];
            spec_container(v1, name, s) == head + (seq![
                "--name"@,
                name,
                "--network"@,
                spec_network_name(v0.pod_name),
            ] + spec_flag_pairs("-p"@, s.ports)) + tail
        }),
{
    let head = seq!["run"@] + spec_flag_pairs("--volume"@, s.volumes) + spec_env_pairs(
        s.environment,
    ) + spec_restart_tokens(s.restart);
    let tail = spec_detach_tokens(v0.detach) + seq![s.image];
    assert(spec_container(v0, name, s) =~= head + (seq![
        "--name"@,
        v0.pod_name + "_"@ + name,
        "--pod"@,
        v0.pod_name,
    ]) + tail);
    assert(spec_container(v1, name, s) =~= head + (seq![
        "--name"@,
        name,
        "--network"@,
        spec_network_name(v0.pod_name),
    ] + spec_flag_pairs("-p"@, s.ports)) + tail);
}

/// Law: a service that declares nothing beyond its image gets the minimal
/// command: `run`, its naming tokens, the optional `-d`, and the image.
pub proof fn lemma_minimal_service(v: ComposeView, name: Seq<char>, s: ServiceView)
    requires
        s.ports.len() == 0,
        s.volumes.len() == 0,
        s.environment.len() == 0,
        s.restart.len() == 0,
    ensures
        !v.network ==> spec_container(v, name, s) == seq![
            "run"@,
            "--name"@,
            v.pod_name + "_"@ + name,
            "--pod"@,
            v.pod_name,
        ] + spec_detach_tokens(v.detach) + seq![s.image],
        v.network ==> spec_container(v, name, s) == seq![
            "run"@,
            "--name"@,
            name,
            "--network"@,
            spec_network_name(v.pod_name),
        ] + spec_detach_tokens(v.detach) + seq![s.image],
{
    if !v.network {
        assert(spec_container(v, name, s) =~= seq![
            "run"@,
            "--name"@,
            v.pod_name + "_"@ + name,
            "--pod"@,
            v.pod_name,
        ] + spec_detach_tokens(v.detach) + seq![s.image]);
    } else {
        assert(spec_container(v, name, s) =~= seq![
            "run"@,
            "--name"@,
            name,
            "--network"@,
            spec_network_name(v.pod_name),
        ] + spec_detach_tokens(v.detach) + seq![s.image]);
    }
}

/// Law: an empty document still yields its composer command, and no container
/// commands at all.
pub proof fn lemma_empty_services(v: ComposeView)
    requires
        v.services.len() == 0,
    ensures
        spec_containers(v).len() == 0,
        !v.network ==> spec_composer(v) == seq!["pod"@, "create"@, "--name"@, v.pod_name],
        v.network ==> spec_composer(v) == seq!["network"@, "create"@, spec_network_name(v.pod_name)],
{
    if !v.network {
        assert(spec_composer(v) =~= seq!["pod"@, "create"@, "--name"@, v.pod_name]);
    }
}

impl ContainerCompose {
    /// Assembles a freshly decoded document. Both topology switches start
    /// off; they are set by `up` from its arguments, before planning.
    pub fn new(version: String, services: Vec<(String, Service)>, pod_name: String) -> (r: ContainerCompose)
        requires
            pod_name@.len() > 0,
        ensures
            r@.version == version@,
            r@.services == services.deep_view(),
            r@.pod_name == pod_name@,
            r@.network == false,
            r@.detach == false,
    {
        ContainerCompose { version, services, pod_name, network: false, detach: false }
    }

    /// The shared-pod composer command.
    pub fn create_pod(&self) -> (r: Vec<String>)
        ensures
            r.deep_view() == spec_pod_command(self@),
    {
        let mut pod: Vec<String> = Vec::new();
        pod.push("pod".to_owned());
        pod.push("create".to_owned());
        pod.push("--name".to_owned());
        pod.push(self.pod_name.clone());
        proof {
            assert(pod.deep_view() =~= seq!["pod"@, "create"@, "--name"@, self@.pod_name]
                + spec_all_port_pairs(self@.services.take(0)));
        }
        let mut i: usize = 0;
        while i < self.services.len()
            invariant
                i <= self.services.len(),
                pod.deep_view() == seq!["pod"@, "create"@, "--name"@, self@.pod_name]
                    + spec_all_port_pairs(self@.services.take(i as int)),
            decreases self.services.len() - i,
        {
            let mut j: usize = 0;
            while j < self.services[i].1.ports.len()
                invariant
                    i < self.services.len(),
                    j <= self.services[i as int].1.ports.len(),
                    pod.deep_view() == seq!["pod"@, "create"@, "--name"@, self@.pod_name]
                        + spec_all_port_pairs(self@.services.take(i as int))
                        + spec_flag_pairs("-p"@, self@.services[i as int].1.ports.take(j as int)),
                decreases self.services[i as int].1.ports.len() - j,
            {
                let ghost before = pod.deep_view();
                pod.push("-p".to_owned());
                pod.push(self.services[i].1.ports[j].clone());
                proof {
                    lemma_flag_pairs_snoc("-p"@, self@.services[i as int].1.ports, j as int);
                    assert(self@.services[i as int] == self.services@[i as int].deep_view());
                    assert(self@.services[i as int].1.ports[j as int]
                        == self.services@[i as int].1.ports@[j as int]@);
                    assert(pod.deep_view() =~= before + seq![
                        "-p"@,
                        self@.services[i as int].1.ports[j as int],
                    ]);
                    assert(pod.deep_view() =~= seq!["pod"@, "create"@, "--name"@, self@.pod_name]
                        + spec_all_port_pairs(self@.services.take(i as int))
                        + spec_flag_pairs("-p"@, self@.services[i as int].1.ports.take(j as int + 1)));
                }
                j = j + 1;
            }
            proof {
                assert(self@.services[i as int].1.ports.take(j as int)
                    =~= self@.services[i as int].1.ports);
                lemma_all_port_pairs_snoc(self@.services, i as int);
                assert(pod.deep_view() =~= seq!["pod"@, "create"@, "--name"@, self@.pod_name]
                    + spec_all_port_pairs(self@.services.take(i as int + 1)));
            }
            i = i + 1;
        }
        proof {
            assert(self@.services.take(i as int) =~= self@.services);
        }
        pod
    }

    /// One service's `run` command, for the service at position `i`.
    pub fn create_container(&self, i: usize) -> (c: Vec<String>)
        requires
            i < self.services@.len(),
        ensures
            c.deep_view() == spec_container(self@, self@.services[i as int].0, self@.services[i as int].1),
    {
        let ghost v = self@;
        let ghost name = self@.services[i as int].0;
        let ghost s = self@.services[i as int].1;
        proof {
            assert(self@.services[i as int] == self.services@[i as int].deep_view());
        }
        let mut c: Vec<String> = Vec::new();
        c.push("run".to_owned());
        proof {
            assert(c.deep_view() =~= seq!["run"@] + spec_flag_pairs("--volume"@, s.volumes.take(0)));
        }
        let mut j: usize = 0;
        while j < self.services[i].1.volumes.len()
            invariant
                i < self.services@.len(),
                j <= s.volumes.len(),
                v == self@,
                name == self@.services[i as int].0,
                s == self@.services[i as int].1,
                c.deep_view() == seq!["run"@] + spec_flag_pairs("--volume"@, s.volumes.take(j as int)),
            decreases s.volumes.len() - j,
        {
            let ghost before = c.deep_view();
            c.push("--volume".to_owned());
            c.push(self.services[i].1.volumes[j].clone());
            proof {
                lemma_flag_pairs_snoc("--volume"@, s.volumes, j as int);
                assert(s.volumes[j as int] == self.services@[i as int].1.volumes@[j as int]@);
                assert(c.deep_view() =~= before + seq!["--volume"@, s.volumes[j as int]]);
                assert(c.deep_view() =~= seq!["run"@]
                    + spec_flag_pairs("--volume"@, s.volumes.take(j as int + 1)));
            }
            j = j + 1;
        }
        proof {
            assert(s.volumes.take(j as int) =~= s.volumes);
        }
        let ghost after_volumes = seq!["run"@] + spec_flag_pairs("--volume"@, s.volumes);
        let mut j: usize = 0;
        while j < self.services[i].1.environment.len()
            invariant
                i < self.services@.len(),
                j <= s.environment.len(),
                v == self@,
                name == self@.services[i as int].0,
                s == self@.services[i as int].1,
                after_volumes == seq!["run"@] + spec_flag_pairs("--volume"@, s.volumes),
                c.deep_view() == after_volumes + spec_env_pairs(s.environment.take(j as int)),
            decreases s.environment.len() - j,
        {
            let ghost before = c.deep_view();
            c.push("-e".to_owned());
            c.push(
                self.services[i].1.environment[j].0.clone().concat("=").concat(
                    self.services[i].1.environment[j].1.as_str(),
                ),
            );
            proof {
                lemma_env_pairs_snoc(s.environment, j as int);
                assert(s.environment[j as int].0
                    == self.services@[i as int].1.environment@[j as int].0@);
                assert(s.environment[j as int].1
                    == self.services@[i as int].1.environment@[j as int].1@);
                assert(c.deep_view() =~= before + seq![
                    "-e"@,
                    s.environment[j as int].0 + "="@ + s.environment[j as int].1,
                ]);
                assert(c.deep_view() =~= after_volumes
                    + spec_env_pairs(s.environment.take(j as int + 1)));
            }
            j = j + 1;
        }
        proof {
            assert(s.environment.take(j as int) =~= s.environment);
        }
        let ghost after_env = after_volumes + spec_env_pairs(s.environment);
        let ghost before_restart = c.deep_view();
        if !self.services[i].1.restart.as_str().is_empty() {
            c.push("--restart".to_owned());
            c.push(self.services[i].1.restart.clone());
            proof {
                assert(s.restart == self.services@[i as int].1.restart@);
                assert(c.deep_view() =~= after_env + spec_restart_tokens(s.restart));
            }
        } else {
            proof {
                assert(c.deep_view() =~= after_env + spec_restart_tokens(s.restart));
            }
        }
        let ghost after_restart = after_env + spec_restart_tokens(s.restart);
        if self.network {
            c.push("--name".to_owned());
            c.push(self.services[i].0.clone());
            c.push("--network".to_owned());
            c.push(self.pod_name.clone().concat("_network"));
            proof {
                assert(name == self.services@[i as int].0@);
                assert(c.deep_view() =~= after_restart + (seq![
                    "--name"@,
                    name,
                    "--network"@,
                    spec_network_name(v.pod_name),
                ] + spec_flag_pairs("-p"@, s.ports.take(0))));
            }
            let mut j: usize = 0;
            while j < self.services[i].1.ports.len()
                invariant
                    i < self.services@.len(),
                    j <= s.ports.len(),
                    v == self@,
                    name == self@.services[i as int].0,
                    s == self@.services[i as int].1,
                    after_restart == after_env + spec_restart_tokens(s.restart),
                    c.deep_view() == after_restart + (seq![
                        "--name"@,
                        name,
                        "--network"@,
                        spec_network_name(v.pod_name),
                    ] + spec_flag_pairs("-p"@, s.ports.take(j as int))),
                decreases s.ports.len() - j,
            {
                let ghost before = c.deep_view();
                c.push("-p".to_owned());
                c.push(self.services[i].1.ports[j].clone());
                proof {
                    lemma_flag_pairs_snoc("-p"@, s.ports, j as int);
                    assert(s.ports[j as int] == self.services@[i as int].1.ports@[j as int]@);
                    assert(c.deep_view() =~= before + seq!["-p"@, s.ports[j as int]]);
                    assert(c.deep_view() =~= after_restart + (seq![
                        "--name"@,
                        name,
                        "--network"@,
                        spec_network_name(v.pod_name),
                    ] + spec_flag_pairs("-p"@, s.ports.take(j as int + 1))));
                }
                j = j + 1;
            }
            proof {
                assert(s.ports.take(j as int) =~= s.ports);
                assert(c.deep_view() =~= after_restart + spec_naming_tokens(v, name, s));
            }
        } else {
            c.push("--name".to_owned());
            c.push(self.pod_name.clone().concat("_").concat(self.services[i].0.as_str()));
            c.push("--pod".to_owned());
            c.push(self.pod_name.clone());
            proof {
                assert(name == self.services@[i as int].0@);
                assert(c.deep_view() =~= after_restart + spec_naming_tokens(v, name, s));
            }
        }
        let ghost after_naming = after_restart + spec_naming_tokens(v, name, s);
        if self.detach {
            c.push("-d".to_owned());
            proof {
                assert(c.deep_view() =~= after_naming + spec_detach_tokens(v.detach));
            }
        } else {
            proof {
                assert(c.deep_view() =~= after_naming + spec_detach_tokens(v.detach));
            }
        }
        c.push(self.services[i].1.image.clone());
        proof {
            assert(s.image == self.services@[i as int].1.image@);
            assert(c.deep_view() =~= after_naming + spec_detach_tokens(v.detach) + seq![s.image]);
            assert(c.deep_view() =~= spec_container(v, name, s));
        }
        c
    }

    /// One `run` command per service, in document order.
    pub fn create_containers(&self) -> (r: Vec<Vec<String>>)
        ensures
            r.deep_view() == spec_containers(self@),
    {
        let mut containers: Vec<Vec<String>> = Vec::new();
        let mut i: usize = 0;
        while i < self.services.len()
            invariant
                i <= self.services.len(),
                containers.deep_view() == spec_containers(self@).take(i as int),
            decreases self.services.len() - i,
        {
            let ghost before = containers.deep_view();
            let container = self.create_container(i);
            containers.push(container);
            proof {
                assert(spec_containers(self@)[i as int] == spec_container(
                    self@,
                    self@.services[i as int].0,
                    self@.services[i as int].1,
                ));
                assert(containers.deep_view() =~= before.push(spec_container(
                    self@,
                    self@.services[i as int].0,
                    self@.services[i as int].1,
                )));
                assert(containers.deep_view() =~= spec_containers(self@).take(i as int + 1));
            }
            i = i + 1;
        }
        proof {
            assert(spec_containers(self@).take(i as int) =~= spec_containers(self@));
        }
        containers
    }

    /// The shared-network composer command.
    pub fn create_network(&self) -> (r: Vec<String>)
        ensures
            r.deep_view() == spec_network_command(self@),
    {
        let mut network: Vec<String> = Vec::new();
        network.push("network".to_owned());
        network.push("create".to_owned());
        network.push(self.pod_name.clone().concat("_network"));
        proof {
            assert(network.deep_view() =~= spec_network_command(self@));
        }
        network
    }

    /// Applies the `up` flags to the document and compiles the plan: the one
    /// composer command and one `run` command per service, in document order.
    /// The caller executes the composer first, then every container command.
    pub fn up(&mut self, up_arguments: Vec<UpArgument>) -> (plan: (Vec<String>, Vec<Vec<String>>))
        ensures
            final(self).network == (old(self).network || up_arguments@.contains(
                UpArgument::Network,
            )),
            final(self).detach == (old(self).detach || up_arguments@.contains(UpArgument::Detach)),
            final(self).version == old(self).version,
            final(self).services == old(self).services,
            final(self).pod_name == old(self).pod_name,
            plan.0.deep_view() == spec_composer(final(self)@),
            plan.1.deep_view() == spec_containers(final(self)@),
            plan.1@.len() == final(self)@.services.len(),
    {
        let mut k: usize = 0;
        while k < up_arguments.len()
            invariant
                k <= up_arguments.len(),
                self.version == old(self).version,
                self.services == old(self).services,
                self.pod_name == old(self).pod_name,
                self.network == (old(self).network || up_arguments@.take(k as int).contains(
                    UpArgument::Network,
                )),
                self.detach == (old(self).detach || up_arguments@.take(k as int).contains(
                    UpArgument::Detach,
                )),
            decreases up_arguments.len() - k,
        {
            match up_arguments[k] {
                UpArgument::Detach => {
                    self.detach = true;
                },
                UpArgument::Network => {
                    self.network = true;
                },
            }
            proof {
                lemma_contains_take_step(up_arguments@, k as int, UpArgument::Network);
                lemma_contains_take_step(up_arguments@, k as int, UpArgument::Detach);
            }
            k = k + 1;
        }
        proof {
            assert(up_arguments@.take(k as int) =~= up_arguments@);
        }
        let composer: Vec<String> = if self.network {
            self.create_network()
        } else {
            self.create_pod()
        };
        let containers: Vec<Vec<String>> = self.create_containers();
        proof {
            assert(containers.deep_view().len() == containers@.len());
        }
        (composer, containers)
    }

    /// Teardown of previously created pods, networks and containers; present
    /// as a named action but without behavior.
    pub fn down(&self) {
    }
}

} // verus!
