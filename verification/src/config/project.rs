//! Projects and how they are deployed.

use vstd::prelude::*;

use crate::collections::StrMap;
use crate::config::environment::Environment;
use crate::domain::deploy::DeployType;
use crate::domain::deploy;
use crate::text::case;
use crate::text::case::{to_lowercase, to_uppercase};
use crate::text::chars;
use crate::text::chars::{concat3, str_eq};
use crate::text::edit;
use crate::text::edit::{replace_char, strip_prefix, strip_suffix};
use crate::text::number;
use crate::text::number::parse_u16;

verus! {

/// A project: where it lies and how it is deployed.
#[derive(Debug)]
pub struct ProjectConfig {
    pub work_dir: String,
    pub deploy_type: DeployType,
}

/// The contents of a `ProjectConfig`.
pub ghost struct ProjectConfigView {
    pub work_dir: Seq<char>,
    pub deploy_type: deploy::DeployTypeView,
}

impl View for ProjectConfig {
    type V = ProjectConfigView;

    open spec fn view(&self) -> ProjectConfigView {
        ProjectConfigView { work_dir: self.work_dir@, deploy_type: self.deploy_type@ }
    }
}

impl Clone for ProjectConfig {
    fn clone(&self) -> (r: ProjectConfig)
        ensures
            r == *self,
    {
        ProjectConfig { work_dir: self.work_dir.clone(), deploy_type: self.deploy_type.clone() }
    }
}

/// The contents of an optional project.
pub open spec fn project_view(p: Option<ProjectConfig>) -> Option<ProjectConfigView> {
    match p {
        Some(p) => Some(p@),
        None => None,
    }
}

/// A project as the deploy center describes it.
pub struct RemoteAgentConfig {
    /// "execute_command", "docker_build", "docker_compose" or "xiaojincut".
    pub deploy_type: String,
    pub script: Option<String>,
    pub work_dir: Option<String>,
    pub dockerfile: Option<String>,
    pub build_context: Option<String>,
    pub image: Option<String>,
    pub tag: Option<String>,
    pub push_latest: bool,
    pub branch: Option<String>,
    pub repo_url: Option<String>,
    pub compose_file: Option<String>,
    pub services: Option<Vec<String>>,
    pub env: Option<StrMap<String>>,
    pub timeout_secs: Option<u32>,
    pub xjc_task_type: Option<String>,
    pub xjc_input_path: Option<String>,
    pub xjc_output_dir: Option<String>,
    pub xjc_prompt: Option<String>,
    pub xjc_port: Option<u16>,
}

/// The type of a deployment whose description names none.
pub fn default_deploy_type() -> (r: String)
    ensures
        r@ == "execute_command"@,
{
    "execute_command".to_owned()
}

/// The text, or a default.
pub open spec fn or_text(o: Option<Seq<char>>, default: Seq<char>) -> Seq<char> {
    match o {
        Some(s) => s,
        None => default,
    }
}

/// Copies a text that may be absent, or takes a default.
fn text_or(o: &Option<String>, default: &str) -> (r: String)
    ensures
        r@ == or_text(chars::opt_view(*o), default@),
{
    match o {
        Some(s) => s.clone(),
        None => default.to_owned(),
    }
}

/// The type name means a build of an image.
pub open spec fn names_build(s: Seq<char>) -> bool {
    s == "docker_build"@ || s == "docker-build"@
}

/// The type name means a compose deployment.
pub open spec fn names_compose(s: Seq<char>) -> bool {
    s == "docker_compose"@ || s == "docker-compose"@
}

fn is_build(s: &str) -> (r: bool)
    ensures
        r == names_build(s@),
{
    str_eq(s, "docker_build") || str_eq(s, "docker-build")
}

fn is_compose(s: &str) -> (r: bool)
    ensures
        r == names_compose(s@),
{
    str_eq(s, "docker_compose") || str_eq(s, "docker-compose")
}

impl RemoteAgentConfig {
    /// The project that the description stands for: none without a work
    /// directory, and none for an image deployment without an image.
    pub open spec fn project_spec(self) -> Option<ProjectConfigView> {
        match (self.work_dir, self.image) {
            (None, _) => None,
            (Some(dir), image) => if names_build(self.deploy_type@) {
                match image {
                    None => None,
                    Some(image) => Some(
                        ProjectConfigView {
                            work_dir: dir@,
                            deploy_type: deploy::DeployTypeView::DockerBuild {
                                dockerfile: chars::opt_view(self.dockerfile),
                                build_context: chars::opt_view(self.build_context),
                                image: image@,
                                tag: chars::opt_view(self.tag),
                                push_latest: self.push_latest,
                                branch: chars::opt_view(self.branch),
                            },
                        },
                    ),
                }
            } else if names_compose(self.deploy_type@) {
                match image {
                    None => None,
                    Some(image) => Some(
                        ProjectConfigView {
                            work_dir: dir@,
                            deploy_type: deploy::DeployTypeView::DockerCompose {
                                compose_file: or_text(
                                    chars::opt_view(self.compose_file),
                                    "docker-compose.yml"@,
                                ),
                                image: image@,
                                git_repo_dir: Some(dir@),
                                service: match self.services {
                                    Some(v) => if v@.len() > 0 {
                                        Some(v@[0]@)
                                    } else {
                                        None
                                    },
                                    None => None,
                                },
                            },
                        },
                    ),
                }
            } else if self.deploy_type@ == "xiaojincut"@ {
                Some(
                    ProjectConfigView {
                        work_dir: dir@,
                        deploy_type: deploy::DeployTypeView::Xiaojincut {
                            task_type: or_text(chars::opt_view(self.xjc_task_type), "import"@),
                            input_path: chars::opt_view(self.xjc_input_path),
                            output_dir: chars::opt_view(self.xjc_output_dir),
                            prompt: chars::opt_view(self.xjc_prompt),
                            port: self.xjc_port,
                        },
                    },
                )
            } else {
                Some(
                    ProjectConfigView {
                        work_dir: dir@,
                        deploy_type: deploy::DeployTypeView::Script {
                            script: or_text(chars::opt_view(self.script), "./deploy.sh"@),
                        },
                    },
                )
            },
        }
    }

    /// The project that the description stands for.
    pub fn to_project_config(&self) -> (r: Option<ProjectConfig>)
        ensures
            project_view(r) == self.project_spec(),
    {
        let work_dir = match &self.work_dir {
            Some(d) => d.clone(),
            None => {
                return None;
            },
        };
        let kind = self.deploy_type.as_str();
        let deploy_type = if is_build(kind) {
            let image = match &self.image {
                Some(i) => i.clone(),
                None => {
                    return None;
                },
            };
            DeployType::DockerBuild {
                dockerfile: self.dockerfile.clone(),
                build_context: self.build_context.clone(),
                image,
                tag: self.tag.clone(),
                push_latest: self.push_latest,
                branch: self.branch.clone(),
            }
        } else if is_compose(kind) {
            let image = match &self.image {
                Some(i) => i.clone(),
                None => {
                    return None;
                },
            };
            let service = match &self.services {
                Some(v) => if v.len() > 0 {
                    Some(v[0].clone())
                } else {
                    None
                },
                None => None,
            };
            DeployType::DockerCompose {
                compose_file: text_or(&self.compose_file, "docker-compose.yml"),
                image,
                git_repo_dir: Some(work_dir.clone()),
                service,
            }
        } else if str_eq(kind, "xiaojincut") {
            DeployType::Xiaojincut {
                task_type: text_or(&self.xjc_task_type, "import"),
                input_path: self.xjc_input_path.clone(),
                output_dir: self.xjc_output_dir.clone(),
                prompt: self.xjc_prompt.clone(),
                port: self.xjc_port,
            }
        } else {
            DeployType::Script { script: text_or(&self.script, "./deploy.sh") }
        };
        Some(ProjectConfig { work_dir, deploy_type })
    }
}

/// The name of the variable that holds `field` of the project whose
/// variables are marked `mark`.
pub open spec fn variable_name(mark: Seq<char>, field: Seq<char>) -> Seq<char> {
    "PROJECT_"@ + mark + field
}

/// The deployment type that the variables of a project give: none for an
/// image deployment without an image.
pub open spec fn deploy_type_from(env: &Environment, mark: Seq<char>) -> Option<
    deploy::DeployTypeView,
> {
    let kind = env.text_or(variable_name(mark, "_TYPE"@), "script"@);
    let image = env.value(variable_name(mark, "_IMAGE"@));
    if names_compose(kind) {
        match image {
            Some(image) => Some(
                deploy::DeployTypeView::DockerCompose {
                    compose_file: env.text_or(
                        variable_name(mark, "_COMPOSE_FILE"@),
                        "docker-compose.yml"@,
                    ),
                    image,
                    git_repo_dir: env.value(variable_name(mark, "_GIT_REPO"@)),
                    service: env.value(variable_name(mark, "_SERVICE"@)),
                },
            ),
            None => None,
        }
    } else if names_build(kind) {
        match image {
            Some(image) => Some(
                deploy::DeployTypeView::DockerBuild {
                    dockerfile: env.value(variable_name(mark, "_DOCKERFILE"@)),
                    build_context: env.value(variable_name(mark, "_BUILD_CONTEXT"@)),
                    image,
                    tag: env.value(variable_name(mark, "_TAG"@)),
                    push_latest: env.exact_switch(variable_name(mark, "_PUSH_LATEST"@)),
                    branch: env.value(variable_name(mark, "_BRANCH"@)),
                },
            ),
            None => None,
        }
    } else if kind == "xiaojincut"@ {
        Some(
            deploy::DeployTypeView::Xiaojincut {
                task_type: env.text_or(variable_name(mark, "_TASK_TYPE"@), "import"@),
                input_path: env.value(variable_name(mark, "_INPUT_PATH"@)),
                output_dir: env.value(variable_name(mark, "_OUTPUT_DIR"@)),
                prompt: env.value(variable_name(mark, "_PROMPT"@)),
                port: match env.value(variable_name(mark, "_PORT"@)) {
                    Some(s) => match number::parse_spec(s, u16::MAX as int) {
                        Some(n) => Some(n as u16),
                        None => None,
                    },
                    None => None,
                },
            },
        )
    } else {
        Some(
            deploy::DeployTypeView::Script {
                script: env.text_or(variable_name(mark, "_SCRIPT"@), "./deploy.sh"@),
            },
        )
    }
}

/// Reads one variable of a project.
fn project_var(env: &Environment, mark: &str, field: &str) -> (r: Option<String>)
    ensures
        chars::opt_view(r) == env.value(variable_name(mark@, field@)),
{
    env.var(concat3("PROJECT_", mark, field).as_str())
}

/// Reads the deployment type of the project whose variables are marked
/// `mark`.
pub fn load_deploy_type(env: &Environment, mark: &str) -> (r: Option<DeployType>)
    ensures
        r is Some <==> deploy_type_from(env, mark@) is Some,
        r matches Some(t) ==> deploy_type_from(env, mark@) == Some(t@),
{
    let kind = text_or(&project_var(env, mark, "_TYPE"), "script");
    if is_compose(kind.as_str()) {
        let compose_file = text_or(&project_var(env, mark, "_COMPOSE_FILE"), "docker-compose.yml");
        match project_var(env, mark, "_IMAGE") {
            Some(image) => Some(
                DeployType::DockerCompose {
                    compose_file,
                    image,
                    git_repo_dir: project_var(env, mark, "_GIT_REPO"),
                    service: project_var(env, mark, "_SERVICE"),
                },
            ),
            None => None,
        }
    } else if is_build(kind.as_str()) {
        let push_latest = match project_var(env, mark, "_PUSH_LATEST") {
            Some(s) => str_eq(s.as_str(), "true") || str_eq(s.as_str(), "1"),
            None => false,
        };
        match project_var(env, mark, "_IMAGE") {
            Some(image) => Some(
                DeployType::DockerBuild {
                    dockerfile: project_var(env, mark, "_DOCKERFILE"),
                    build_context: project_var(env, mark, "_BUILD_CONTEXT"),
                    image,
                    tag: project_var(env, mark, "_TAG"),
                    push_latest,
                    branch: project_var(env, mark, "_BRANCH"),
                },
            ),
            None => None,
        }
    } else if str_eq(kind.as_str(), "xiaojincut") {
        let port = match project_var(env, mark, "_PORT") {
            Some(s) => parse_u16(s.as_str()),
            None => None,
        };
        Some(
            DeployType::Xiaojincut {
                task_type: text_or(&project_var(env, mark, "_TASK_TYPE"), "import"),
                input_path: project_var(env, mark, "_INPUT_PATH"),
                output_dir: project_var(env, mark, "_OUTPUT_DIR"),
                prompt: project_var(env, mark, "_PROMPT"),
                port,
            },
        )
    } else {
        Some(DeployType::Script { script: text_or(&project_var(env, mark, "_SCRIPT"), "./deploy.sh") })
    }
}

/// The part of the variable name between "PROJECT_" and "_DIR".
pub open spec fn directory_mark(key: Seq<char>) -> Option<Seq<char>> {
    match edit::strip_prefix_spec(key, "PROJECT_"@) {
        Some(rest) => edit::strip_suffix_spec(rest, "_DIR"@),
        None => None,
    }
}

/// The name of the project whose directory variable holds `mark`.
pub open spec fn project_name(mark: Seq<char>) -> Seq<char> {
    edit::replace_char_spec(case::lowercase_of(mark), '_', '-')
}

/// How the other variables of the project called `name` are marked.
pub open spec fn project_mark(name: Seq<char>) -> Seq<char> {
    edit::replace_char_spec(case::uppercase_of(name), '-', '_')
}

/// The projects that the first `n` variables give, on top of `start`.
pub open spec fn projects_from(
    env: &Environment,
    start: Map<Seq<char>, ProjectConfigView>,
    n: int,
) -> Map<Seq<char>, ProjectConfigView>
    decreases n,
{
    if n <= 0 {
        start
    } else {
        let before = projects_from(env, start, n - 1);
        let (key, value) = env.vars@[n - 1];
        match directory_mark(key@) {
            None => before,
            Some(mark) => match deploy_type_from(env, project_mark(project_name(mark))) {
                None => before,
                Some(t) => before.insert(
                    project_name(mark),
                    ProjectConfigView { work_dir: value@, deploy_type: t },
                ),
            },
        }
    }
}

/// The project that `BACKEND_WORK_DIR` stands for.
pub open spec fn legacy_projects(env: &Environment) -> Map<Seq<char>, ProjectConfigView> {
    match env.value("BACKEND_WORK_DIR"@) {
        Some(dir) => Map::empty().insert(
            "xiaojinpro-backend"@,
            ProjectConfigView {
                work_dir: dir,
                deploy_type: deploy::DeployTypeView::Script {
                    script: "./build-and-push-backend.sh"@,
                },
            },
        ),
        None => Map::empty(),
    }
}

/// The contents of a table of projects.
pub open spec fn project_views(m: Map<Seq<char>, ProjectConfig>) -> Map<
    Seq<char>,
    ProjectConfigView,
> {
    m.map_values(|p: ProjectConfig| p@)
}

/// Reads the projects: the legacy one, and one for each variable
/// `PROJECT_..._DIR`. Where two variables give the same name the later one in
/// the listing counts; an image deployment without an image is left out.
pub fn load_projects_from_env(env: &Environment) -> (r: StrMap<ProjectConfig>)
    ensures
        project_views(r@) == projects_from(env, legacy_projects(env), env.vars@.len() as int),
{
    let mut projects: StrMap<ProjectConfig> = StrMap::new();
    assert(project_views(projects@) =~= Map::empty());
    if let Some(work_dir) = env.var("BACKEND_WORK_DIR") {
        let ghost before = projects@;
        let p = ProjectConfig {
            work_dir,
            deploy_type: DeployType::Script { script: "./build-and-push-backend.sh".to_owned() },
        };
        let name = "xiaojinpro-backend".to_owned();
        projects.insert(name, p);
        assert(project_views(projects@) =~= project_views(before).insert(name@, p@));
    }
    let ghost start = legacy_projects(env);
    let mut i: usize = 0;
    while i < env.vars.len()
        invariant
            i <= env.vars@.len(),
            project_views(projects@) == projects_from(env, start, i as int),
        decreases env.vars@.len() - i,
    {
        let key = env.vars[i].0.as_str();
        let mark = match strip_prefix(key, "PROJECT_") {
            Some(rest) => strip_suffix(rest.as_str(), "_DIR"),
            None => None,
        };
        assert(chars::opt_view(mark) == directory_mark(key@));
        if let Some(mark) = mark {
            let name = replace_char(to_lowercase(mark.as_str()).as_str(), '_', '-');
            let upper = replace_char(to_uppercase(name.as_str()).as_str(), '-', '_');
            if let Some(deploy_type) = load_deploy_type(env, upper.as_str()) {
                let ghost before = projects@;
                let p = ProjectConfig { work_dir: env.vars[i].1.clone(), deploy_type };
                projects.insert(name, p);
                assert(project_views(projects@) =~= project_views(before).insert(name@, p@));
            }
        }
        i = i + 1;
    }
    projects
}

} // verus!
