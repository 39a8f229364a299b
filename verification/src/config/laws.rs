//! What each variable of the environment decides, said of the list of
//! variables alone.

use vstd::prelude::*;

use crate::config::autoupdate;
use crate::config::env::{EnvConfig, FrpConfig, NfaConfig, TunnelConfig};
use crate::config::environment;
use crate::config::environment::Environment;
use crate::config::project;
use crate::config::project::RemoteAgentConfig;
use crate::domain::deploy;
use crate::domain::ssh::{SshAuthMode, SshConfig};
use crate::domain::tunnel;
use crate::services::lan_discovery;
use crate::services::lan_discovery::LanDiscoveryConfig;
use crate::services::mesh;
use crate::services::mesh::MeshConfig;
use crate::services::service_router;
use crate::services::service_router::ServiceRouterConfig;
use crate::text::case;
use crate::text::chars;
use crate::text::edit;
use crate::text::laws;
use crate::text::number;

verus! {

/// The first variable of this name has this value; or no variable has this
/// name, where there is no value.
pub open spec fn holds(env: &Environment, name: Seq<char>, value: Option<Seq<char>>) -> bool {
    match value {
        Some(v) => exists|i: int|
            0 <= i < env.vars@.len() && (#[trigger] env.vars@[i]).0@ == name && env.vars@[i].1@ == v
                && forall|j: int| 0 <= j < i ==> (#[trigger] env.vars@[j]).0@ != name,
        None => forall|i: int| 0 <= i < env.vars@.len() ==> (#[trigger] env.vars@[i]).0@ != name,
    }
}

/// The value or, where there is none, the other one.
pub open spec fn else_text(value: Option<Seq<char>>, other: Seq<char>) -> Seq<char> {
    if value is Some {
        value->0
    } else {
        other
    }
}

/// This is the number that the value writes; where it writes none that fits,
/// or there is no value, it is the other one.
pub open spec fn is_number(n: int, value: Option<Seq<char>>, max: int, other: int) -> bool {
    match value {
        Some(v) => match number::parse_spec(v, max) {
            Some(m) => n == m,
            None => n == other,
        },
        None => n == other,
    }
}

/// The value says "1", or "true" in whatever case.
pub open spec fn turned_on(value: Seq<char>) -> bool {
    value == "1"@ || edit::eq_ignore_case(value, "true"@)
}

proof fn lemma_lookup(vars: Seq<(String, String)>, name: Seq<char>)
    ensures
        environment::lookup(vars, name) is None <==> forall|i: int|
            0 <= i < vars.len() ==> (#[trigger] vars[i]).0@ != name,
        forall|i: int|
            0 <= i < vars.len() && (#[trigger] vars[i]).0@ == name && (forall|j: int|
                0 <= j < i ==> (#[trigger] vars[j]).0@ != name) ==> environment::lookup(vars, name)
                == Some(vars[i].1@),
    decreases vars.len(),
{
    if vars.len() > 0 {
        let rest = vars.subrange(1, vars.len() as int);
        lemma_lookup(rest, name);
        if vars[0].0@ != name {
            assert forall|i: int|
                0 <= i < vars.len() && (#[trigger] vars[i]).0@ == name && (forall|j: int|
                    0 <= j < i ==> (#[trigger] vars[j]).0@
                        != name) implies environment::lookup(vars, name) == Some(vars[i].1@) by {
                assert(rest[i - 1] == vars[i]);
                assert forall|j: int| 0 <= j < i - 1 implies (#[trigger] rest[j]).0@ != name by {
                    assert(rest[j] == vars[j + 1]);
                }
            }
            if environment::lookup(vars, name) is None {
                assert forall|i: int| 0 <= i < vars.len() implies (#[trigger] vars[i]).0@
                    != name by {
                    if i > 0 {
                        assert(vars[i] == rest[i - 1]);
                    }
                }
            }
            if forall|i: int| 0 <= i < vars.len() ==> (#[trigger] vars[i]).0@ != name {
                assert forall|i: int| 0 <= i < rest.len() implies (#[trigger] rest[i]).0@
                    != name by {
                    assert(rest[i] == vars[i + 1]);
                }
            }
        }
    }
}

/// A variable is read as it is listed first, and not at all where it is not
/// listed.
pub proof fn first_listed_value_counts(env: &Environment, name: Seq<char>, value: Option<Seq<char>>)
    requires
        holds(env, name, value),
    ensures
        env.value(name) == value,
{
    lemma_lookup(env.vars@, name);
}

/// What the readings of a variable are: its text or a default, the number or
/// the switch that it writes, and itself where it is not empty.
pub proof fn readings_of_a_variable(
    env: &Environment,
    name: Seq<char>,
    value: Option<Seq<char>>,
    default: Seq<char>,
    max: int,
    number: int,
    switch: bool,
)
    requires
        holds(env, name, value),
    ensures
        env.text_or(name, default) == else_text(value, default),
        is_number(env.number_or(name, max, number), value, max, number),
        env.switch(name, switch) == (if value is Some {
            turned_on(value->0)
        } else {
            switch
        }),
        env.exact_switch(name) <==> value == Some("true"@) || value == Some("1"@),
        env.nonempty(name) == (if value is Some && value->0.len() > 0 {
            value
        } else {
            None
        }),
{
    first_listed_value_counts(env, name, value);
}

/// Of two variables the first counts where it is set, and else the second.
pub proof fn first_name_counts(
    env: &Environment,
    primary: Seq<char>,
    fallback: Seq<char>,
    a: Option<Seq<char>>,
    b: Option<Seq<char>>,
)
    requires
        holds(env, primary, a),
        holds(env, fallback, b),
    ensures
        env.either(primary, fallback) == (if a is Some {
            a
        } else {
            b
        }),
{
    first_listed_value_counts(env, primary, a);
    first_listed_value_counts(env, fallback, b);
}

/// A compose project has what its variables say: the image, which it must
/// have, the compose file or "docker-compose.yml", the repository and the
/// service, each of the last two only where it is set.
pub proof fn compose_project_is_as_configured(
    env: &Environment,
    mark: Seq<char>,
    kind: Seq<char>,
    image: Option<Seq<char>>,
    file: Option<Seq<char>>,
    repo: Option<Seq<char>>,
    service: Option<Seq<char>>,
)
    requires
        kind == "docker_compose"@ || kind == "docker-compose"@,
        holds(env, "PROJECT_"@ + mark + "_TYPE"@, Some(kind)),
        holds(env, "PROJECT_"@ + mark + "_IMAGE"@, image),
        holds(env, "PROJECT_"@ + mark + "_COMPOSE_FILE"@, file),
        holds(env, "PROJECT_"@ + mark + "_GIT_REPO"@, repo),
        holds(env, "PROJECT_"@ + mark + "_SERVICE"@, service),
    ensures
        image is None ==> project::deploy_type_from(env, mark) is None,
        image is Some ==> project::deploy_type_from(env, mark) == Some(
            deploy::DeployTypeView::DockerCompose {
                compose_file: else_text(file, "docker-compose.yml"@),
                image: image->0,
                git_repo_dir: repo,
                service,
            },
        ),
{
    first_listed_value_counts(env, "PROJECT_"@ + mark + "_TYPE"@, Some(kind));
    first_listed_value_counts(env, "PROJECT_"@ + mark + "_IMAGE"@, image);
    first_listed_value_counts(env, "PROJECT_"@ + mark + "_COMPOSE_FILE"@, file);
    first_listed_value_counts(env, "PROJECT_"@ + mark + "_GIT_REPO"@, repo);
    first_listed_value_counts(env, "PROJECT_"@ + mark + "_SERVICE"@, service);
}

/// A build project has what its variables say: the image, which it must have,
/// and the Dockerfile, the build context, the tag and the branch, each only
/// where it is set; the latest tag is pushed where that says "true" or "1".
pub proof fn build_project_is_as_configured(
    env: &Environment,
    mark: Seq<char>,
    kind: Seq<char>,
    image: Option<Seq<char>>,
    dockerfile: Option<Seq<char>>,
    context: Option<Seq<char>>,
    tag: Option<Seq<char>>,
    push_latest: Option<Seq<char>>,
    branch: Option<Seq<char>>,
)
    requires
        kind == "docker_build"@ || kind == "docker-build"@,
        holds(env, "PROJECT_"@ + mark + "_TYPE"@, Some(kind)),
        holds(env, "PROJECT_"@ + mark + "_IMAGE"@, image),
        holds(env, "PROJECT_"@ + mark + "_DOCKERFILE"@, dockerfile),
        holds(env, "PROJECT_"@ + mark + "_BUILD_CONTEXT"@, context),
        holds(env, "PROJECT_"@ + mark + "_TAG"@, tag),
        holds(env, "PROJECT_"@ + mark + "_PUSH_LATEST"@, push_latest),
        holds(env, "PROJECT_"@ + mark + "_BRANCH"@, branch),
    ensures
        image is None ==> project::deploy_type_from(env, mark) is None,
        image is Some ==> project::deploy_type_from(env, mark) == Some(
            deploy::DeployTypeView::DockerBuild {
                dockerfile,
                build_context: context,
                image: image->0,
                tag,
                push_latest: push_latest == Some("true"@) || push_latest == Some("1"@),
                branch,
            },
        ),
{
    first_listed_value_counts(env, "PROJECT_"@ + mark + "_TYPE"@, Some(kind));
    first_listed_value_counts(env, "PROJECT_"@ + mark + "_IMAGE"@, image);
    first_listed_value_counts(env, "PROJECT_"@ + mark + "_DOCKERFILE"@, dockerfile);
    first_listed_value_counts(env, "PROJECT_"@ + mark + "_BUILD_CONTEXT"@, context);
    first_listed_value_counts(env, "PROJECT_"@ + mark + "_TAG"@, tag);
    first_listed_value_counts(env, "PROJECT_"@ + mark + "_PUSH_LATEST"@, push_latest);
    first_listed_value_counts(env, "PROJECT_"@ + mark + "_BRANCH"@, branch);
    reveal_strlit("docker_build");
    reveal_strlit("docker-build");
    reveal_strlit("docker_compose");
    reveal_strlit("docker-compose");
    assert("docker_build"@.len() != "docker_compose"@.len());
    assert("docker-build"@.len() != "docker-compose"@.len());
}

/// A video project has what its variables say: the kind of task or "import",
/// the input, the output and the prompt, each only where it is set, and the
/// port where it is a number.
pub proof fn video_project_is_as_configured(
    env: &Environment,
    mark: Seq<char>,
    task: Option<Seq<char>>,
    input: Option<Seq<char>>,
    output: Option<Seq<char>>,
    prompt: Option<Seq<char>>,
    port: Option<Seq<char>>,
)
    requires
        holds(env, "PROJECT_"@ + mark + "_TYPE"@, Some("xiaojincut"@)),
        holds(env, "PROJECT_"@ + mark + "_TASK_TYPE"@, task),
        holds(env, "PROJECT_"@ + mark + "_INPUT_PATH"@, input),
        holds(env, "PROJECT_"@ + mark + "_OUTPUT_DIR"@, output),
        holds(env, "PROJECT_"@ + mark + "_PROMPT"@, prompt),
        holds(env, "PROJECT_"@ + mark + "_PORT"@, port),
    ensures
        project::deploy_type_from(env, mark) matches Some(
            deploy::DeployTypeView::Xiaojincut {
                task_type,
                input_path,
                output_dir,
                prompt: told,
                port: number,
            },
        ) && {
            &&& task_type == else_text(task, "import"@)
            &&& input_path == input
            &&& output_dir == output
            &&& told == prompt
            &&& port is None ==> number is None
            &&& port matches Some(p) ==> match number::parse_spec(p, 65535) {
                Some(n) => number is Some && number->0 == n,
                None => number is None,
            }
        },
{
    first_listed_value_counts(env, "PROJECT_"@ + mark + "_TYPE"@, Some("xiaojincut"@));
    first_listed_value_counts(env, "PROJECT_"@ + mark + "_TASK_TYPE"@, task);
    first_listed_value_counts(env, "PROJECT_"@ + mark + "_INPUT_PATH"@, input);
    first_listed_value_counts(env, "PROJECT_"@ + mark + "_OUTPUT_DIR"@, output);
    first_listed_value_counts(env, "PROJECT_"@ + mark + "_PROMPT"@, prompt);
    first_listed_value_counts(env, "PROJECT_"@ + mark + "_PORT"@, port);
    if port is Some {
        lemma_parsed_in_range(port->0, 65535);
    }
    reveal_strlit("xiaojincut");
    reveal_strlit("docker_build");
    reveal_strlit("docker-build");
    reveal_strlit("docker_compose");
    reveal_strlit("docker-compose");
    assert("xiaojincut"@.len() != "docker_build"@.len());
    assert("xiaojincut"@.len() != "docker-build"@.len());
    assert("xiaojincut"@.len() != "docker_compose"@.len());
    assert("xiaojincut"@.len() != "docker-compose"@.len());
}

/// A project of any other kind, or of none, runs its script or "./deploy.sh".
pub proof fn other_project_runs_its_script(
    env: &Environment,
    mark: Seq<char>,
    kind: Option<Seq<char>>,
    script: Option<Seq<char>>,
)
    requires
        kind != Some("docker_compose"@),
        kind != Some("docker-compose"@),
        kind != Some("docker_build"@),
        kind != Some("docker-build"@),
        kind != Some("xiaojincut"@),
        holds(env, "PROJECT_"@ + mark + "_TYPE"@, kind),
        holds(env, "PROJECT_"@ + mark + "_SCRIPT"@, script),
    ensures
        project::deploy_type_from(env, mark) == Some(
            deploy::DeployTypeView::Script { script: else_text(script, "./deploy.sh"@) },
        ),
{
    first_listed_value_counts(env, "PROJECT_"@ + mark + "_TYPE"@, kind);
    first_listed_value_counts(env, "PROJECT_"@ + mark + "_SCRIPT"@, script);
    reveal_strlit("script");
    reveal_strlit("xiaojincut");
    reveal_strlit("docker_build");
    reveal_strlit("docker-build");
    reveal_strlit("docker_compose");
    reveal_strlit("docker-compose");
    assert("script"@.len() == 6);
    assert("xiaojincut"@.len() == 10);
    assert("docker_build"@.len() == 12);
    assert("docker-build"@.len() == 12);
    assert("docker_compose"@.len() == 14);
    assert("docker-compose"@.len() == 14);
}

/// A variable "PROJECT_..._DIR", and no other, names a project, by what stands
/// in the middle: in small letters, and with hyphens for underscores. The other
/// variables of the project are marked by its name in capitals, with
/// underscores for hyphens.
pub proof fn directory_variable_names_a_project(key: Seq<char>, mark: Seq<char>)
    ensures
        project::directory_mark(key) == Some(mark) <==> key == "PROJECT_"@ + mark + "_DIR"@,
        project::project_name(mark) == edit::replace_char_spec(case::lowercase_of(mark), '_', '-'),
        project::project_mark(mark) == edit::replace_char_spec(case::uppercase_of(mark), '-', '_'),
{
    let p = "PROJECT_"@;
    let d = "_DIR"@;
    laws::affixes_come_off(p, mark + d);
    laws::affixes_come_off(d, mark);
    laws::affixes_come_off(p, key);
    assert(p + mark + d =~= p + (mark + d));
    if let Some(rest) = edit::strip_prefix_spec(key, p) {
        laws::affixes_come_off(d, rest);
        if project::directory_mark(key) == Some(mark) {
            assert(key == p + rest);
            assert(rest == mark + d);
        }
    }
}

/// The variable at `i` gives the project `name` with this configuration.
pub open spec fn gives(
    env: &Environment,
    i: int,
    name: Seq<char>,
    p: project::ProjectConfigView,
) -> bool {
    exists|mark: Seq<char>|
        env.vars@[i].0@ == #[trigger] ("PROJECT_"@ + mark + "_DIR"@) && name
            == edit::replace_char_spec(case::lowercase_of(mark), '_', '-') && env.vars@[i].1@
            == p.work_dir && project::deploy_type_from(
            env,
            edit::replace_char_spec(case::uppercase_of(name), '-', '_'),
        ) == Some(p.deploy_type)
}

spec fn read_at(
    env: &Environment,
    i: int,
    name: Seq<char>,
    p: project::ProjectConfigView,
) -> bool {
    let mark = project::directory_mark(env.vars@[i].0@);
    &&& mark is Some
    &&& name == project::project_name(mark->0)
    &&& env.vars@[i].1@ == p.work_dir
    &&& project::deploy_type_from(env, project::project_mark(name)) == Some(p.deploy_type)
}

proof fn lemma_gives(env: &Environment, i: int, name: Seq<char>, p: project::ProjectConfigView)
    requires
        0 <= i < env.vars@.len(),
    ensures
        gives(env, i, name, p) <==> read_at(env, i, name, p),
{
    let key = env.vars@[i].0@;
    if gives(env, i, name, p) {
        let mark = choose|mark: Seq<char>|
            key == #[trigger] ("PROJECT_"@ + mark + "_DIR"@) && name == edit::replace_char_spec(
                case::lowercase_of(mark),
                '_',
                '-',
            ) && env.vars@[i].1@ == p.work_dir && project::deploy_type_from(
                env,
                edit::replace_char_spec(case::uppercase_of(name), '-', '_'),
            ) == Some(p.deploy_type);
        directory_variable_names_a_project(key, mark);
    }
    if let Some(mark) = project::directory_mark(key) {
        directory_variable_names_a_project(key, mark);
        directory_variable_names_a_project(key, name);
    }
}

/// Of the first `n` variables, the one at `i` is the last that gives the
/// project.
pub open spec fn last_gives(env: &Environment, n: int, i: int, name: Seq<char>, p: project::ProjectConfigView) -> bool {
    &&& 0 <= i < n
    &&& gives(env, i, name, p)
    &&& forall|j: int, q: project::ProjectConfigView| i < j < n ==> !gives(env, j, name, q)
}

/// Every project is in the table under its name, as the last of the variables
/// that give it says; those that were there before stay where no variable gives
/// them anew; and there is no other.
pub proof fn projects_are_those_of_the_variables(
    env: &Environment,
    start: Map<Seq<char>, project::ProjectConfigView>,
    n: int,
    name: Seq<char>,
)
    requires
        0 <= n <= env.vars@.len(),
    ensures
        forall|i: int, p: project::ProjectConfigView| #[trigger]
            last_gives(env, n, i, name, p) ==> project::projects_from(
                env,
                start,
                n,
            ).dom().contains(name) && project::projects_from(env, start, n)[name] == p,
        (forall|i: int, p: project::ProjectConfigView| 0 <= i < n ==> !gives(env, i, name, p)) ==> (
        project::projects_from(env, start, n).dom().contains(name) <==> start.dom().contains(name))
            && (start.dom().contains(name) ==> project::projects_from(env, start, n)[name]
            == start[name]),
    decreases n,
{
    if n > 0 {
        projects_are_those_of_the_variables(env, start, n - 1, name);
        let key = env.vars@[n - 1].0@;
        let value = env.vars@[n - 1].1@;
        assert forall|p: project::ProjectConfigView| #[trigger] gives(env, n - 1, name, p) <==> read_at(
            env,
            n - 1,
            name,
            p,
        ) by {
            lemma_gives(env, n - 1, name, p);
        }
        let here = project::directory_mark(key) is Some && project::project_name(
            project::directory_mark(key)->0,
        ) == name && project::deploy_type_from(env, project::project_mark(name)) is Some;
        if here {
            let q = project::ProjectConfigView {
                work_dir: value,
                deploy_type: project::deploy_type_from(env, project::project_mark(name))->0,
            };
            assert(gives(env, n - 1, name, q));
            assert forall|i: int, p: project::ProjectConfigView| #[trigger] last_gives(
                env,
                n,
                i,
                name,
                p,
            ) implies project::projects_from(env, start, n).dom().contains(name)
                && project::projects_from(env, start, n)[name] == p by {
                if i < n - 1 {
                    assert(!gives(env, n - 1, name, q));
                }
                assert(p.work_dir == q.work_dir && p.deploy_type == q.deploy_type);
            }
        } else {
            assert forall|i: int, p: project::ProjectConfigView| #[trigger] last_gives(
                env,
                n,
                i,
                name,
                p,
            ) implies project::projects_from(env, start, n).dom().contains(name)
                && project::projects_from(env, start, n)[name] == p by {
                assert(i < n - 1) by {
                    if i == n - 1 {
                        assert(gives(env, n - 1, name, p));
                    }
                }
                assert(last_gives(env, n - 1, i, name, p));
            }
        }
    }
}

/// The older variable gives one project, which runs its own script; without it
/// there is none to begin with.
pub proof fn older_variable_gives_the_backend(env: &Environment, dir: Option<Seq<char>>, name: Seq<char>)
    requires
        holds(env, "BACKEND_WORK_DIR"@, dir),
    ensures
        project::legacy_projects(env).dom().contains(name) <==> dir is Some && name
            == "xiaojinpro-backend"@,
        dir is Some ==> project::legacy_projects(env)["xiaojinpro-backend"@]
            == (project::ProjectConfigView {
            work_dir: dir->0,
            deploy_type: deploy::DeployTypeView::Script {
                script: "./build-and-push-backend.sh"@,
            },
        }),
{
    first_listed_value_counts(env, "BACKEND_WORK_DIR"@, dir);
}

/// A project that the deploy center describes has what the description says,
/// and there is none without a directory, nor an image deployment without an
/// image.
pub proof fn described_project_is_as_described(c: RemoteAgentConfig)
    ensures
        c.work_dir is None ==> c.project_spec() is None,
        c.work_dir is Some && (c.deploy_type@ == "docker_build"@ || c.deploy_type@
            == "docker-build"@) ==> {
            &&& c.image is None ==> c.project_spec() is None
            &&& c.image is Some ==> c.project_spec() == Some(
                project::ProjectConfigView {
                    work_dir: c.work_dir->0@,
                    deploy_type: deploy::DeployTypeView::DockerBuild {
                        dockerfile: chars::opt_view(c.dockerfile),
                        build_context: chars::opt_view(c.build_context),
                        image: c.image->0@,
                        tag: chars::opt_view(c.tag),
                        push_latest: c.push_latest,
                        branch: chars::opt_view(c.branch),
                    },
                },
            )
        },
        c.work_dir is Some && (c.deploy_type@ == "docker_compose"@ || c.deploy_type@
            == "docker-compose"@) ==> {
            &&& c.image is None ==> c.project_spec() is None
            &&& c.image is Some ==> c.project_spec() == Some(
                project::ProjectConfigView {
                    work_dir: c.work_dir->0@,
                    deploy_type: deploy::DeployTypeView::DockerCompose {
                        compose_file: else_text(
                            chars::opt_view(c.compose_file),
                            "docker-compose.yml"@,
                        ),
                        image: c.image->0@,
                        git_repo_dir: Some(c.work_dir->0@),
                        service: if c.services is Some && c.services->0@.len() > 0 {
                            Some(c.services->0@[0]@)
                        } else {
                            None
                        },
                    },
                },
            )
        },
        c.work_dir is Some && c.deploy_type@ == "xiaojincut"@ ==> c.project_spec() == Some(
            project::ProjectConfigView {
                work_dir: c.work_dir->0@,
                deploy_type: deploy::DeployTypeView::Xiaojincut {
                    task_type: else_text(chars::opt_view(c.xjc_task_type), "import"@),
                    input_path: chars::opt_view(c.xjc_input_path),
                    output_dir: chars::opt_view(c.xjc_output_dir),
                    prompt: chars::opt_view(c.xjc_prompt),
                    port: c.xjc_port,
                },
            },
        ),
        c.work_dir is Some && c.deploy_type@ != "docker_build"@ && c.deploy_type@
            != "docker-build"@ && c.deploy_type@ != "docker_compose"@ && c.deploy_type@
            != "docker-compose"@ && c.deploy_type@ != "xiaojincut"@ ==> c.project_spec() == Some(
            project::ProjectConfigView {
                work_dir: c.work_dir->0@,
                deploy_type: deploy::DeployTypeView::Script {
                    script: else_text(chars::opt_view(c.script), "./deploy.sh"@),
                },
            },
        ),
{
    reveal_strlit("xiaojincut");
    reveal_strlit("docker_build");
    reveal_strlit("docker-build");
    reveal_strlit("docker_compose");
    reveal_strlit("docker-compose");
    assert("xiaojincut"@.len() == 10);
    assert("docker_build"@.len() == 12);
    assert("docker-build"@.len() == 12);
    assert("docker_compose"@.len() == 14);
    assert("docker-compose"@.len() == 14);
}

/// The agent listens on `PORT` or on 9877, takes the key of its clients from
/// `DEPLOY_AGENT_API_KEY` or from `API_KEY`, and finds the deploy center under
/// `DEPLOY_CENTER_URL`, or else under one of the older names.
pub proof fn agent_is_as_configured(
    env: &Environment,
    c: EnvConfig,
    port: Option<Seq<char>>,
    key: Option<Seq<char>>,
    older_key: Option<Seq<char>>,
    center: Option<Seq<char>>,
    callback: Option<Seq<char>>,
    oldest: Option<Seq<char>>,
)
    requires
        c.is_from(env),
        holds(env, "PORT"@, port),
        holds(env, "DEPLOY_AGENT_API_KEY"@, key),
        holds(env, "API_KEY"@, older_key),
        holds(env, "DEPLOY_CENTER_URL"@, center),
        holds(env, "DEPLOY_CENTER_CALLBACK_URL"@, callback),
        holds(env, "CALLBACK_URL"@, oldest),
    ensures
        is_number(c.port as int, port, 65535, 9877),
        c.api_key@ == else_text(key, else_text(older_key, "change-me-in-production"@)),
        center is Some ==> chars::opt_view(c.callback_url) == center,
        center is None && callback is Some ==> chars::opt_view(c.callback_url) == callback,
        center is None && callback is None ==> chars::opt_view(c.callback_url) == oldest,
        c.tunnel.is_from(env),
        c.nfa.is_from(env),
        c.frp.is_from(env),
        c.ssh.is_from(env),
        autoupdate::config_view(c.auto_update) == autoupdate::config_from(env),
{
    first_listed_value_counts(env, "PORT"@, port);
    first_listed_value_counts(env, "DEPLOY_AGENT_API_KEY"@, key);
    first_listed_value_counts(env, "API_KEY"@, older_key);
    first_listed_value_counts(env, "DEPLOY_CENTER_URL"@, center);
    first_listed_value_counts(env, "DEPLOY_CENTER_CALLBACK_URL"@, callback);
    first_listed_value_counts(env, "CALLBACK_URL"@, oldest);
}

/// Updates are looked for where the switch says "true" or "1", or where it says
/// nothing and `AUTO_UPDATE_ENDPOINT` is set. They lie below that endpoint, in
/// places that have defaults, or below the older one, in places that must be
/// given; they are looked for as often as is said, or every hour.
pub proof fn updates_are_as_configured(
    env: &Environment,
    switch: Option<Seq<char>>,
    endpoint: Option<Seq<char>>,
    older: Option<Seq<char>>,
    metadata: Option<Seq<char>>,
    binary: Option<Seq<char>>,
    interval: Option<Seq<char>>,
    older_interval: Option<Seq<char>>,
)
    requires
        holds(env, "AUTO_UPDATE_ENABLED"@, switch),
        holds(env, "AUTO_UPDATE_ENDPOINT"@, endpoint),
        holds(env, "UPDATE_ENDPOINT"@, older),
        holds(env, "UPDATE_METADATA_PATH"@, metadata),
        holds(env, "UPDATE_BINARY_PATH_TEMPLATE"@, binary),
        holds(env, "AUTO_UPDATE_INTERVAL"@, interval),
        holds(env, "UPDATE_CHECK_INTERVAL_SECS"@, older_interval),
    ensures
        ({
            let c = autoupdate::config_from(env);
            let on = if switch is Some {
                switch == Some("true"@) || switch == Some("1"@)
            } else {
                endpoint is Some
            };
            let known = endpoint is Some || (older is Some && metadata is Some && binary is Some);
            &&& c is Some <==> on && known
            &&& c is Some ==> {
                &&& c->0.enabled
                &&& endpoint is Some ==> c->0.endpoint == endpoint->0
                &&& endpoint is None ==> c->0.endpoint == older->0
                &&& c->0.metadata_path == else_text(metadata, "latest.json"@)
                &&& c->0.binary_path_template == else_text(
                    binary,
                    "xjp-deploy-agent-{version}-linux-musl-amd64"@,
                )
                &&& interval is Some ==> is_number(
                    c->0.check_interval_secs as int,
                    interval,
                    u64::MAX as int,
                    3600,
                )
                &&& interval is None ==> is_number(
                    c->0.check_interval_secs as int,
                    older_interval,
                    u64::MAX as int,
                    3600,
                )
            }
        }),
{
    first_listed_value_counts(env, "AUTO_UPDATE_ENABLED"@, switch);
    first_listed_value_counts(env, "AUTO_UPDATE_ENDPOINT"@, endpoint);
    first_listed_value_counts(env, "UPDATE_ENDPOINT"@, older);
    first_listed_value_counts(env, "UPDATE_METADATA_PATH"@, metadata);
    first_listed_value_counts(env, "UPDATE_BINARY_PATH_TEMPLATE"@, binary);
    first_listed_value_counts(env, "AUTO_UPDATE_INTERVAL"@, interval);
    first_listed_value_counts(env, "UPDATE_CHECK_INTERVAL_SECS"@, older_interval);
    if interval is Some {
        lemma_parsed_in_range(interval->0, u64::MAX as int);
    }
    if older_interval is Some {
        lemma_parsed_in_range(older_interval->0, u64::MAX as int);
    }
}

proof fn lemma_parsed_in_range(s: Seq<char>, max: int)
    ensures
        number::parse_spec(s, max) matches Some(n) ==> 0 <= n <= max,
{
    let d = number::unsigned_digits(s);
    if number::all_digits(d) {
        number::lemma_digits_value_grows(d, 0);
        assert(d.take(0) =~= Seq::<char>::empty());
    }
}

/// The tunnel is a server or a client where `TUNNEL_MODE` says so, in whatever
/// case, and else it is off. The client has its name, or that of the host, the
/// token, the address of the server and the mappings that its variables write.
pub proof fn tunnel_is_as_configured(
    env: &Environment,
    c: TunnelConfig,
    mode: Option<Seq<char>>,
    id: Option<Seq<char>>,
    token: Option<Seq<char>>,
    url: Option<Seq<char>>,
    mappings: Option<Seq<char>>,
)
    requires
        c.is_from(env),
        holds(env, "TUNNEL_MODE"@, mode),
        holds(env, "TUNNEL_CLIENT_ID"@, id),
        holds(env, "TUNNEL_AUTH_TOKEN"@, token),
        holds(env, "TUNNEL_SERVER_URL"@, url),
        holds(env, "TUNNEL_MAPPINGS"@, mappings),
    ensures
        c.mode is Server <==> mode is Some && case::lowercase_of(mode->0) == "server"@,
        c.mode is Client <==> mode is Some && case::lowercase_of(mode->0) == "client"@,
        id is Some ==> c.client_id@ == id->0,
        id is None && env.hostname is Some ==> c.client_id@ == env.hostname->0@,
        id is None && env.hostname is None ==> c.client_id@ == "unknown"@,
        c.auth_token@ == else_text(token, "change-tunnel-token"@),
        c.server_url@ == else_text(url, "ws://localhost:9878/tunnel/ws"@),
        mappings is Some ==> tunnel::mapping_views(c.port_mappings@) == tunnel::mappings_of(
            mappings->0,
        ),
        mappings is None ==> c.port_mappings@.len() == 0,
{
    first_listed_value_counts(env, "TUNNEL_MODE"@, mode);
    first_listed_value_counts(env, "TUNNEL_CLIENT_ID"@, id);
    first_listed_value_counts(env, "TUNNEL_AUTH_TOKEN"@, token);
    first_listed_value_counts(env, "TUNNEL_SERVER_URL"@, url);
    first_listed_value_counts(env, "TUNNEL_MAPPINGS"@, mappings);
    if mappings is None {
        assert(tunnel::mapping_views(c.port_mappings@).len() == c.port_mappings@.len());
    }
    reveal_strlit("server");
    reveal_strlit("client");
    assert("server"@[0] == 's');
    assert("client"@[0] == 'c');
}

/// The alignment service is as its variables say: off where nothing switches
/// it on, started by the agent where nothing says otherwise.
pub proof fn alignment_service_is_as_configured(
    env: &Environment,
    c: NfaConfig,
    enabled: Option<Seq<char>>,
    auto: Option<Seq<char>>,
    python: Option<Seq<char>>,
    script: Option<Seq<char>>,
    port: Option<Seq<char>>,
    jobs: Option<Seq<char>>,
    poll: Option<Seq<char>>,
    timeout: Option<Seq<char>>,
    backoff: Option<Seq<char>>,
)
    requires
        c.is_from(env),
        holds(env, "NFA_ENABLED"@, enabled),
        holds(env, "NFA_AUTO_START"@, auto),
        holds(env, "NFA_PYTHON_PATH"@, python),
        holds(env, "NFA_SCRIPT_PATH"@, script),
        holds(env, "NFA_PORT"@, port),
        holds(env, "NFA_MAX_CONCURRENT"@, jobs),
        holds(env, "NFA_POLL_INTERVAL_MS"@, poll),
        holds(env, "NFA_JOB_TIMEOUT_SECS"@, timeout),
        holds(env, "NFA_RESTART_BACKOFF_MS"@, backoff),
    ensures
        c.enabled <==> enabled is Some && turned_on(enabled->0),
        c.auto_start <==> (auto is Some ==> turned_on(auto->0)),
        c.python_path@ == else_text(python, "python"@),
        c.script_path@ == else_text(script, "C:\\alignment-service\\nfa_service.py"@),
        is_number(c.port as int, port, 65535, 9528),
        is_number(c.max_concurrent as int, jobs, usize::MAX as int, 1),
        is_number(c.poll_interval_ms as int, poll, u64::MAX as int, 800),
        is_number(c.job_timeout_secs as int, timeout, u64::MAX as int, 300),
        is_number(c.restart_backoff_ms as int, backoff, u64::MAX as int, 1500),
{
    first_listed_value_counts(env, "NFA_ENABLED"@, enabled);
    first_listed_value_counts(env, "NFA_AUTO_START"@, auto);
    first_listed_value_counts(env, "NFA_PYTHON_PATH"@, python);
    first_listed_value_counts(env, "NFA_SCRIPT_PATH"@, script);
    first_listed_value_counts(env, "NFA_PORT"@, port);
    first_listed_value_counts(env, "NFA_MAX_CONCURRENT"@, jobs);
    first_listed_value_counts(env, "NFA_POLL_INTERVAL_MS"@, poll);
    first_listed_value_counts(env, "NFA_JOB_TIMEOUT_SECS"@, timeout);
    first_listed_value_counts(env, "NFA_RESTART_BACKOFF_MS"@, backoff);
}

/// The value, where it is not empty.
pub open spec fn unless_empty(value: Option<Seq<char>>) -> Option<Seq<char>> {
    if value is Some && value->0.len() > 0 {
        value
    } else {
        None
    }
}

/// The frp client is as its variables say.
pub proof fn frp_client_is_as_configured(
    env: &Environment,
    c: FrpConfig,
    enabled: Option<Seq<char>>,
    path: Option<Seq<char>>,
    server: Option<Seq<char>>,
    server_port: Option<Seq<char>>,
    token: Option<Seq<char>>,
    admin: Option<Seq<char>>,
    admin_port: Option<Seq<char>>,
    user: Option<Seq<char>>,
    password: Option<Seq<char>>,
)
    requires
        c.is_from(env),
        holds(env, "FRP_ENABLED"@, enabled),
        holds(env, "FRPC_PATH"@, path),
        holds(env, "FRP_SERVER_ADDR"@, server),
        holds(env, "FRP_SERVER_PORT"@, server_port),
        holds(env, "FRP_TOKEN"@, token),
        holds(env, "FRP_ADMIN_ADDR"@, admin),
        holds(env, "FRP_ADMIN_PORT"@, admin_port),
        holds(env, "FRP_ADMIN_USER"@, user),
        holds(env, "FRP_ADMIN_PWD"@, password),
    ensures
        c.enabled <==> enabled is Some && turned_on(enabled->0),
        c.frpc_path@ == else_text(path, "frpc"@),
        c.server_addr@ == else_text(server, "127.0.0.1"@),
        is_number(c.server_port as int, server_port, 65535, 7000),
        chars::opt_view(c.token) == unless_empty(token),
        c.admin_addr@ == else_text(admin, "127.0.0.1"@),
        is_number(c.admin_port as int, admin_port, 65535, 7400),
        chars::opt_view(c.admin_user) == unless_empty(user),
        chars::opt_view(c.admin_pwd) == unless_empty(password),
{
    first_listed_value_counts(env, "FRP_ENABLED"@, enabled);
    first_listed_value_counts(env, "FRPC_PATH"@, path);
    first_listed_value_counts(env, "FRP_SERVER_ADDR"@, server);
    first_listed_value_counts(env, "FRP_SERVER_PORT"@, server_port);
    first_listed_value_counts(env, "FRP_TOKEN"@, token);
    first_listed_value_counts(env, "FRP_ADMIN_ADDR"@, admin);
    first_listed_value_counts(env, "FRP_ADMIN_PORT"@, admin_port);
    first_listed_value_counts(env, "FRP_ADMIN_USER"@, user);
    first_listed_value_counts(env, "FRP_ADMIN_PWD"@, password);
}

/// The SSH server is as its variables say.
pub proof fn ssh_server_is_as_configured(
    env: &Environment,
    c: SshConfig,
    enabled: Option<Seq<char>>,
    port: Option<Seq<char>>,
    user: Option<Seq<char>>,
    mode: Option<Seq<char>>,
    keys: Option<Seq<char>>,
    host_key: Option<Seq<char>>,
    session: Option<Seq<char>>,
    idle: Option<Seq<char>>,
    sessions: Option<Seq<char>>,
)
    requires
        c.is_from(env),
        holds(env, "SSH_ENABLED"@, enabled),
        holds(env, "SSH_PORT"@, port),
        holds(env, "SSH_USERNAME"@, user),
        holds(env, "SSH_AUTH_MODE"@, mode),
        holds(env, "SSH_AUTHORIZED_KEYS_FILE"@, keys),
        holds(env, "SSH_HOST_KEY_FILE"@, host_key),
        holds(env, "SSH_SESSION_TIMEOUT_SECS"@, session),
        holds(env, "SSH_IDLE_TIMEOUT_SECS"@, idle),
        holds(env, "SSH_MAX_SESSIONS"@, sessions),
    ensures
        c.enabled <==> enabled is Some && turned_on(enabled->0),
        is_number(c.port as int, port, 65535, 2222),
        c.username@ == else_text(user, "deploy"@),
        mode is None ==> c.auth_mode is ApiKey,
        mode is Some ==> c.auth_mode == SshAuthMode::named(case::lowercase_of(mode->0)),
        chars::opt_view(c.authorized_keys_file) == unless_empty(keys),
        chars::opt_view(c.host_key_file) == unless_empty(host_key),
        is_number(c.session_timeout_secs as int, session, u64::MAX as int, 3600),
        is_number(c.idle_timeout_secs as int, idle, u64::MAX as int, 300),
        is_number(c.max_sessions as int, sessions, usize::MAX as int, 10),
{
    first_listed_value_counts(env, "SSH_ENABLED"@, enabled);
    first_listed_value_counts(env, "SSH_PORT"@, port);
    first_listed_value_counts(env, "SSH_USERNAME"@, user);
    first_listed_value_counts(env, "SSH_AUTH_MODE"@, mode);
    first_listed_value_counts(env, "SSH_AUTHORIZED_KEYS_FILE"@, keys);
    first_listed_value_counts(env, "SSH_HOST_KEY_FILE"@, host_key);
    first_listed_value_counts(env, "SSH_SESSION_TIMEOUT_SECS"@, session);
    first_listed_value_counts(env, "SSH_IDLE_TIMEOUT_SECS"@, idle);
    first_listed_value_counts(env, "SSH_MAX_SESSIONS"@, sessions);
}

/// The discovery in the local network is as its variables say.
pub proof fn discovery_is_as_configured(
    env: &Environment,
    c: LanDiscoveryConfig,
    broadcast: Option<Seq<char>>,
    id: Option<Seq<char>>,
    other_id: Option<Seq<char>>,
    port: Option<Seq<char>>,
    services: Option<Seq<char>>,
    other_services: Option<Seq<char>>,
)
    requires
        c.is_from(env),
        holds(env, "LAN_BROADCAST_PORT"@, broadcast),
        holds(env, "TUNNEL_CLIENT_ID"@, id),
        holds(env, "MESH_AGENT_ID"@, other_id),
        holds(env, "PORT"@, port),
        holds(env, "LAN_LOCAL_SERVICES"@, services),
        holds(env, "LOCAL_SERVICES"@, other_services),
    ensures
        c.enabled,
        is_number(c.broadcast_port as int, broadcast, 65535, 19998),
        id is Some ==> c.agent_id@ == id->0,
        id is None && other_id is Some ==> c.agent_id@ == other_id->0,
        id is None && other_id is None && env.hostname is Some ==> c.agent_id@
            == env.hostname->0@,
        is_number(c.api_port as int, port, 65535, 9877),
        services is Some ==> lan_discovery::service_list(c.local_services@)
            == lan_discovery::services_of(services->0),
        services is None && other_services is Some ==> lan_discovery::service_list(
            c.local_services@,
        ) == lan_discovery::services_of(other_services->0),
        services is None && other_services is None ==> lan_discovery::service_list(
            c.local_services@,
        ).len() == 0,
{
    first_listed_value_counts(env, "LAN_BROADCAST_PORT"@, broadcast);
    first_listed_value_counts(env, "TUNNEL_CLIENT_ID"@, id);
    first_listed_value_counts(env, "MESH_AGENT_ID"@, other_id);
    first_listed_value_counts(env, "PORT"@, port);
    first_listed_value_counts(env, "LAN_LOCAL_SERVICES"@, services);
    first_listed_value_counts(env, "LOCAL_SERVICES"@, other_services);
}

/// The mesh is as its variables say.
pub proof fn mesh_is_as_configured(
    env: &Environment,
    c: MeshConfig,
    registry: Option<Seq<char>>,
    center: Option<Seq<char>>,
    callback: Option<Seq<char>>,
    key: Option<Seq<char>>,
    agent_key: Option<Seq<char>>,
    id: Option<Seq<char>>,
    other_id: Option<Seq<char>>,
    name: Option<Seq<char>>,
    services: Option<Seq<char>>,
    heartbeat: Option<Seq<char>>,
)
    requires
        c.is_from(env),
        holds(env, "MESH_REGISTRY_URL"@, registry),
        holds(env, "DEPLOY_CENTER_URL"@, center),
        holds(env, "DEPLOY_CENTER_CALLBACK_URL"@, callback),
        holds(env, "MESH_API_KEY"@, key),
        holds(env, "DEPLOY_AGENT_API_KEY"@, agent_key),
        holds(env, "MESH_AGENT_ID"@, id),
        holds(env, "TUNNEL_CLIENT_ID"@, other_id),
        holds(env, "MESH_AGENT_NAME"@, name),
        holds(env, "MESH_LOCAL_SERVICES"@, services),
        holds(env, "MESH_HEARTBEAT_INTERVAL_SECS"@, heartbeat),
    ensures
        c.enabled,
        registry is Some || center is Some || callback is Some,
        registry is Some ==> c.registry_url@ == registry->0,
        registry is None && center is Some ==> c.registry_url@ == center->0,
        registry is None && center is None ==> c.registry_url@ == callback->0,
        c.api_key@ == else_text(key, else_text(agent_key, ""@)),
        id is Some ==> c.agent_id@ == id->0,
        id is None && other_id is Some ==> c.agent_id@ == other_id->0,
        id is None && other_id is None && env.hostname is Some ==> c.agent_id@
            == env.hostname->0@,
        chars::opt_view(c.agent_name) == name,
        services is Some ==> mesh::mesh_services(c.local_services@) == mesh::mesh_services_of(
            services->0,
        ),
        services is None ==> mesh::mesh_services(c.local_services@).len() == 0,
        is_number(c.heartbeat_secs as int, heartbeat, u64::MAX as int, 60),
{
    first_listed_value_counts(env, "MESH_REGISTRY_URL"@, registry);
    first_listed_value_counts(env, "DEPLOY_CENTER_URL"@, center);
    first_listed_value_counts(env, "DEPLOY_CENTER_CALLBACK_URL"@, callback);
    first_listed_value_counts(env, "MESH_API_KEY"@, key);
    first_listed_value_counts(env, "DEPLOY_AGENT_API_KEY"@, agent_key);
    first_listed_value_counts(env, "MESH_AGENT_ID"@, id);
    first_listed_value_counts(env, "TUNNEL_CLIENT_ID"@, other_id);
    first_listed_value_counts(env, "MESH_AGENT_NAME"@, name);
    first_listed_value_counts(env, "MESH_LOCAL_SERVICES"@, services);
    first_listed_value_counts(env, "MESH_HEARTBEAT_INTERVAL_SECS"@, heartbeat);
}

/// The router knows the services that its variables write, and the deploy
/// center as a last resort.
pub proof fn router_is_as_configured(
    env: &Environment,
    c: ServiceRouterConfig,
    local: Option<Seq<char>>,
    endpoints: Option<Seq<char>>,
    name: Seq<char>,
)
    requires
        c.is_from(env),
        holds(env, "ROUTER_LOCAL_SERVICES"@, local),
        holds(env, "ROUTER_ENDPOINTS"@, endpoints),
    ensures
        local is Some ==> service_router::text_map(c.local_services@)
            == service_router::service_map_of(local->0),
        local is None ==> !c.local_services@.dom().contains(name),
        endpoints is Some ==> service_router::text_map(c.configured_endpoints@)
            == service_router::service_map_of(endpoints->0),
        endpoints is None ==> !c.configured_endpoints@.dom().contains(name),
        c.fallback_endpoints@.dom().contains(name) <==> name == "deploy-center"@,
        c.fallback_endpoints@["deploy-center"@]@ == "https://auth.xiaojinpro.com"@,
{
    first_listed_value_counts(env, "ROUTER_LOCAL_SERVICES"@, local);
    first_listed_value_counts(env, "ROUTER_ENDPOINTS"@, endpoints);
    let f = service_router::text_map(c.fallback_endpoints@);
    assert(f.dom().contains(name) <==> c.fallback_endpoints@.dom().contains(name));
    assert(f.dom().contains("deploy-center"@));
    assert(f["deploy-center"@] == c.fallback_endpoints@["deploy-center"@]@);
    if local is None {
        let m = service_router::text_map(c.local_services@);
        assert(m.dom().contains(name) <==> c.local_services@.dom().contains(name));
    }
    if endpoints is None {
        let m = service_router::text_map(c.configured_endpoints@);
        assert(m.dom().contains(name) <==> c.configured_endpoints@.dom().contains(name));
    }
}

} // verus!
