//! What the steps of build, script and video deployments are, said of what is
//! configured, of what commands gave back, and of what is asked for next.

use vstd::prelude::*;

use crate::collections;
use crate::config::project;
use crate::domain::deploy;
use crate::domain::deploy::DeployStatus;
use crate::services::deploy::action;
use crate::services::deploy::action::Moment;
use crate::services::deploy::build_laws::{step, BuildEvent};
use crate::services::deploy::docker_build;
use crate::services::deploy::execute::RunView;
use crate::services::deploy::script;
use crate::services::deploy::xiaojincut;
use crate::services::deploy::zombies;
use crate::text::edit;
use crate::text::number;
use crate::text::search;
use crate::text::split;

verus! {

/// The command came back with exit code 0.
pub open spec fn succeeded(r: Result<action::OutputView, Seq<char>>) -> bool {
    r matches Ok(o) && o.code == Some(0i32)
}

/// The exit code that a failed command leaves: its own, or -1.
pub open spec fn failure_code(r: Result<action::OutputView, Seq<char>>) -> i32 {
    match r {
        Ok(o) => if o.code is Some {
            o.code->0
        } else {
            -1i32
        },
        Err(_) => -1i32,
    }
}

/// A command that is run and whose output is gathered.
pub open spec fn command(
    program: Seq<char>,
    args: Seq<Seq<char>>,
    dir: Option<Seq<char>>,
) -> action::ActionView {
    action::ActionView::Run { program, args, dir }
}

/// The last action ends the task in this way.
pub open spec fn ends(acts: Seq<action::ActionView>, status: DeployStatus, code: i32) -> bool {
    acts.len() > 0 && (acts.last() matches action::ActionView::Finish {
        status: s,
        exit_code: c,
        ..
    } && s == status && c == code)
}

/// The deployment of a project goes by its type, with everything that the
/// project has, and with the commit and the branch that were asked for.
pub proof fn deployment_goes_by_its_type(
    task_id: Seq<char>,
    name: Seq<char>,
    config: project::ProjectConfigView,
    commit: Option<Seq<char>>,
    branch: Option<Seq<char>>,
)
    ensures
        ({
            let run = RunView::fresh(task_id, name, config, commit, branch);
            match config.deploy_type {
                deploy::DeployTypeView::Script { script } => run matches RunView::Script(d)
                    && d.project == name && d.work_dir == config.work_dir && d.script == script
                    && d.commit_hash == commit && d.branch == branch && d.phase is Ready,
                deploy::DeployTypeView::DockerCompose {
                    compose_file,
                    image,
                    git_repo_dir,
                    service,
                } => run matches RunView::Compose(d) && d.task_id == task_id && d.project == name
                    && d.work_dir == config.work_dir && d.compose_file == compose_file && d.image
                    == image && d.git_repo_dir == git_repo_dir && d.service == service
                    && d.health_port is None && d.exit_code == 0 && d.phase is Ready,
                deploy::DeployTypeView::DockerBuild {
                    dockerfile,
                    build_context,
                    image,
                    tag,
                    push_latest,
                    branch: built,
                } => run matches RunView::Build(d) && d.project == name && d.work_dir
                    == config.work_dir && d.dockerfile == dockerfile && d.build_context
                    == build_context && d.image == image && d.given_tag == tag && d.push_latest
                    == push_latest && d.branch == built && d.exit_code == 0 && d.phase is Ready && (
                tag is Some ==> d.tag == tag->0) && (tag is None ==> d.tag == "latest"@),
                deploy::DeployTypeView::Xiaojincut {
                    task_type,
                    input_path,
                    output_dir,
                    prompt,
                    port,
                } => run matches RunView::Xiaojincut(d) && d.task_type == task_type
                    && d.input_path == input_path && d.output_dir == output_dir && d.prompt
                    == prompt && d.port == port && d.phase is Ready,
            }
        }),
{
}

/// A build keeps to what is configured, whatever happens to it.
pub open spec fn same_order(a: docker_build::BuildView, b: docker_build::BuildView) -> bool {
    &&& a.project == b.project
    &&& a.work_dir == b.work_dir
    &&& a.dockerfile == b.dockerfile
    &&& a.build_context == b.build_context
    &&& a.image == b.image
    &&& a.given_tag == b.given_tag
    &&& a.push_latest == b.push_latest
    &&& a.branch == b.branch
}

/// The arguments of the build of an image: under its name and tag, with the
/// Dockerfile and in the context that are configured, or else with "Dockerfile"
/// and in ".".
pub open spec fn build_arguments(s: docker_build::BuildView) -> Seq<Seq<char>> {
    seq![
        "build"@,
        "--progress=plain"@,
        "-t"@,
        s.image + ":"@ + s.tag,
        "-f"@,
        if s.dockerfile is Some {
            s.dockerfile->0
        } else {
            "Dockerfile"@
        },
        if s.build_context is Some {
            s.build_context->0
        } else {
            "."@
        },
    ]
}

/// A streamed command, if it is one, is the build of the image as it is
/// configured.
pub open spec fn builds_as_configured(a: action::ActionView, s: docker_build::BuildView) -> bool {
    a matches action::ActionView::Spawn { program, args, dir, envs, filtered } ==> {
        &&& program == "docker"@
        &&& args == build_arguments(s)
        &&& dir == s.work_dir
        &&& envs.len() == 0
        &&& !filtered
    }
}

/// A step keeps to what is configured, keeps the tag, and streams no command.
spec fn streams_nothing(s: docker_build::BuildView, t: docker_build::StepView) -> bool {
    &&& same_order(s, t.state)
    &&& t.state.tag == s.tag
    &&& none_streamed(t.actions)
}

spec fn none_streamed(acts: Seq<action::ActionView>) -> bool {
    forall|i: int| 0 <= i < acts.len() ==> !((#[trigger] acts[i]) is Spawn)
}

proof fn lemma_end_streams_nothing(s: docker_build::BuildView, acts: Seq<action::ActionView>)
    requires
        none_streamed(acts),
    ensures
        streams_nothing(s, s.wrap_up(acts)),
        streams_nothing(s, s.cancel(acts)),
{
}

proof fn lemma_told_streams_nothing(o: action::OutputView)
    ensures
        none_streamed(action::output_logs(o)),
{
}

proof fn lemma_prepared(s: docker_build::BuildView, acts: Seq<action::ActionView>, m: Moment)
    requires
        none_streamed(acts),
    ensures
        streams_nothing(s, s.prepared(acts, m)),
{
    let told = acts.push(action::err("Deployment cancelled"@));
    lemma_end_streams_nothing(s, acts);
    lemma_end_streams_nothing(s, told);
}

proof fn lemma_pull_streams_nothing(
    s: docker_build::BuildView,
    r: Result<action::OutputView, Seq<char>>,
    m: Moment,
)
    ensures
        streams_nothing(s, s.git_pulled(r, m)),
{
    reveal(docker_build::BuildView::git_pulled);
    let t = s.git_pulled(r, m);
    let none = Seq::<action::ActionView>::empty();
    let after = match r {
        Ok(o) => if o.success() {
            s.finished(0, m.now, true, None)
        } else {
            s.finished(0, m.now, false, Some("git pull failed"@)).exiting(o.code_or())
        },
        Err(e) => s.finished(0, m.now, false, Some(e)).exiting(action::EXIT_UNKNOWN),
    };
    let told = match r {
        Ok(o) => none + action::output_logs(o),
        Err(e) => none.push(action::err("Error: Failed to run git pull: "@ + e)),
    }.push(after.publish());
    if let Ok(o) = r {
        lemma_told_streams_nothing(o);
    }
    assert(none_streamed(told));
    lemma_prepared(after, told, m);
}

proof fn lemma_hash_streams_nothing(
    s: docker_build::BuildView,
    r: Result<action::OutputView, Seq<char>>,
    m: Moment,
)
    ensures
        same_order(s, s.hashed(r, m).state),
        none_streamed(s.hashed(r, m).actions),
{
    reveal(docker_build::BuildView::hashed);
    let none = Seq::<action::ActionView>::empty();
    lemma_prepared(s, none, m);
    if let Ok(o) = r {
        let tag = split::trim_spec(o.stdout);
        lemma_prepared(
            docker_build::BuildView { tag, ..s },
            none.push(action::out("Using commit hash as tag: "@ + tag)),
            m,
        );
    }
}

proof fn lemma_built_streams_nothing(
    s: docker_build::BuildView,
    acts: Seq<action::ActionView>,
    m: Moment,
)
    requires
        none_streamed(acts),
    ensures
        streams_nothing(s, s.built(acts, m)),
{
    let told = acts.push(s.publish());
    lemma_end_streams_nothing(s, told);
    lemma_end_streams_nothing(
        s,
        told.push(action::err("=== Deployment cancelled before push ==="@)),
    );
}

proof fn lemma_build_end_streams_nothing(
    s: docker_build::BuildView,
    end: action::SpawnEndView,
    m: Moment,
)
    ensures
        streams_nothing(s, s.build_ended(end, m)),
{
    reveal(docker_build::BuildView::build_ended);
    let none = Seq::<action::ActionView>::empty();
    match end {
        action::SpawnEndView::NotStarted(e) => {
            lemma_built_streams_nothing(
                s.finished(1, m.now, false, Some(e)).exiting(action::EXIT_UNKNOWN),
                none.push(action::err("Error: Failed to start docker build: "@ + e)),
                m,
            );
        },
        action::SpawnEndView::Cancelled => {
            assert(none_streamed(s.build_ended(end, m).actions));
        },
        action::SpawnEndView::Exited(code) => {
            lemma_built_streams_nothing(
                s.finished(1, m.now, true, None),
                none.push(action::out("✓ Image built: "@ + s.full_image())),
                m,
            );
            lemma_built_streams_nothing(
                s.finished(1, m.now, false, Some("docker build failed"@)).exiting(
                    match code {
                        Some(c) => c,
                        None => action::EXIT_UNKNOWN,
                    },
                ),
                none,
                m,
            );
        },
        action::SpawnEndView::Lost(e) => {
            lemma_built_streams_nothing(
                s.finished(1, m.now, false, Some(e)).exiting(action::EXIT_UNKNOWN),
                none.push(action::err("Error waiting for build: "@ + e)),
                m,
            );
        },
    }
}

proof fn lemma_pushed_or_not_streams_nothing(
    s: docker_build::BuildView,
    acts: Seq<action::ActionView>,
    m: Moment,
)
    requires
        none_streamed(acts),
    ensures
        streams_nothing(s, s.pushed_or_not(acts, m)),
{
    let told = acts.push(s.publish());
    lemma_end_streams_nothing(s, told);
    lemma_end_streams_nothing(
        s,
        told.push(action::err("=== Deployment cancelled before push latest ==="@)),
    );
}

proof fn lemma_push_streams_nothing(
    s: docker_build::BuildView,
    r: Result<action::OutputView, Seq<char>>,
    m: Moment,
)
    ensures
        streams_nothing(s, s.pushed(r, m)),
{
    reveal(docker_build::BuildView::pushed);
    let none = Seq::<action::ActionView>::empty();
    match r {
        Ok(o) => {
            let logs = none + action::output_logs(o);
            lemma_told_streams_nothing(o);
            assert(none_streamed(logs));
            lemma_pushed_or_not_streams_nothing(
                s.finished(2, m.now, true, None),
                logs.push(action::out("✓ Pushed: "@ + s.full_image())),
                m,
            );
            lemma_pushed_or_not_streams_nothing(
                s.finished(2, m.now, false, Some("docker push failed"@)).exiting(o.code_or()),
                logs,
                m,
            );
        },
        Err(e) => {
            lemma_pushed_or_not_streams_nothing(
                s.finished(2, m.now, false, Some(e)).exiting(action::EXIT_UNKNOWN),
                none.push(action::err("Error: Failed to push image: "@ + e)),
                m,
            );
        },
    }
}

proof fn lemma_tag_streams_nothing(
    s: docker_build::BuildView,
    r: Result<action::OutputView, Seq<char>>,
)
    ensures
        streams_nothing(s, s.tagged(r)),
{
    reveal(docker_build::BuildView::tagged);
    assert(none_streamed(s.tagged(r).actions));
}

proof fn lemma_latest_streams_nothing(
    s: docker_build::BuildView,
    r: Result<action::OutputView, Seq<char>>,
    m: Moment,
)
    ensures
        streams_nothing(s, s.pushed_latest(r, m)),
{
    reveal(docker_build::BuildView::pushed_latest);
    assert(none_streamed(s.pushed_latest(r, m).actions));
}

proof fn lemma_cleanup_builds(
    s: docker_build::BuildView,
    c: zombies::CleanupView,
    r: Result<action::OutputView, Seq<char>>,
    m: Moment,
    i: int,
)
    ensures
        ({
            let t = s.cleanup_stepped(c.on_output_spec(r), m);
            &&& same_order(s, t.state)
            &&& t.state.tag == s.tag
            &&& 0 <= i < t.actions.len() ==> builds_as_configured(t.actions[i], s)
        }),
{
    reveal(docker_build::BuildView::cleanup_stepped);
    let step = c.on_output_spec(r);
    let t = s.cleanup_stepped(step, m);
    assert(step.command matches Some(a) ==> a is Run);
    if 0 <= i < t.actions.len() && t.actions[i] is Spawn {
        assert(t.actions[i]->Spawn_args =~= build_arguments(s));
    }
}

/// Whenever a build deployment streams a command, it is the build of the image
/// that is configured, with the Dockerfile and the context that are configured,
/// in the directory of the project; and what is configured never changes.
pub proof fn image_is_built_as_configured(
    s: docker_build::BuildView,
    event: BuildEvent,
    m: Moment,
    i: int,
)
    ensures
        same_order(s, step(s, event, m).state),
        0 <= i < step(s, event, m).actions.len() ==> builds_as_configured(
            step(s, event, m).actions[i],
            s,
        ),
        !(s.phase is RevParse && event is Output) ==> step(s, event, m).state.tag == s.tag,
{
    let d = s.at(docker_build::PhaseView::Done);
    match event {
        BuildEvent::Output(r) => match s.phase {
            docker_build::PhaseView::GitPull => lemma_pull_streams_nothing(d, r, m),
            docker_build::PhaseView::RevParse => lemma_hash_streams_nothing(d, r, m),
            docker_build::PhaseView::Cleanup { cleanup } => lemma_cleanup_builds(
                d,
                cleanup,
                r,
                m,
                i,
            ),
            docker_build::PhaseView::Push => lemma_push_streams_nothing(d, r, m),
            docker_build::PhaseView::Tag => lemma_tag_streams_nothing(d, r),
            docker_build::PhaseView::PushLatest => lemma_latest_streams_nothing(d, r, m),
            _ => {},
        },
        BuildEvent::SpawnEnd(end) => {
            lemma_build_end_streams_nothing(s, end, m);
        },
    }
}

/// A build begins with the update of the repository, on the branch that is
/// configured or on "master".
pub proof fn build_begins_with_the_branch(s: docker_build::BuildView, m: Moment)
    ensures
        same_order(s, s.begin_spec(m).state),
        s.begin_spec(m).state.tag == s.tag,
        s.begin_spec(m).state.phase is GitPull,
        s.begin_spec(m).actions.last() == command(
            "git"@,
            seq![
                "pull"@,
                "--ff-only"@,
                "origin"@,
                if s.branch is Some {
                    s.branch->0
                } else {
                    "master"@
                },
            ],
            Some(s.work_dir),
        ),
{
    assert(s.begin_spec(m).actions.last()->Run_args =~= seq![
        "pull"@,
        "--ff-only"@,
        "origin"@,
        if s.branch is Some {
            s.branch->0
        } else {
            "master"@
        },
    ]);
}

/// A failed update of the repository ends a build. After one that succeeded the
/// commit is asked for where no tag is configured; the tag is then its hash.
/// Unless the deployment has been cancelled, the way is cleared for the build.
pub proof fn repository_comes_first(
    s: docker_build::BuildView,
    r: Result<action::OutputView, Seq<char>>,
    m: Moment,
)
    requires
        s.exit_code == 0,
    ensures
        s.phase is GitPull ==> {
            let t = s.on_output_spec(r, m);
            let listing = t.state.phase is Cleanup && t.actions.last() == command(
                "ps"@,
                seq!["aux"@],
                None,
            );
            &&& !succeeded(r) && !m.cancelled && failure_code(r) != 0 ==> ends(
                t.actions,
                DeployStatus::Failed,
                failure_code(r),
            ) && t.state.phase is Done
            &&& succeeded(r) && s.given_tag is None ==> t.state.phase is RevParse
                && t.actions.last() == command(
                "git"@,
                seq!["rev-parse"@, "--short"@, "HEAD"@],
                Some(s.work_dir),
            )
            &&& succeeded(r) && s.given_tag is Some && !m.cancelled ==> listing
            &&& succeeded(r) && s.given_tag is Some && m.cancelled ==> ends(
                t.actions,
                DeployStatus::Failed,
                -2i32,
            ) && t.state.phase is Done
        },
        s.phase is RevParse ==> {
            let t = s.on_output_spec(r, m);
            &&& succeeded(r) ==> t.state.tag == split::trim_spec(r->Ok_0.stdout)
            &&& !succeeded(r) ==> t.state.tag == s.tag
            &&& !m.cancelled ==> t.state.phase is Cleanup && t.actions.last() == command(
                "ps"@,
                seq!["aux"@],
                None,
            )
            &&& m.cancelled ==> ends(t.actions, DeployStatus::Failed, -2i32) && t.state.phase is Done
        },
{
    reveal(docker_build::BuildView::git_pulled);
    reveal(docker_build::BuildView::hashed);
}

/// An image that was built is pushed, unless the deployment has been cancelled;
/// one that was not ends the deployment with the exit code of the build.
pub proof fn built_image_is_pushed(
    s: docker_build::BuildView,
    end: action::SpawnEndView,
    m: Moment,
)
    requires
        s.phase is Build,
        s.exit_code == 0,
    ensures
        ({
            let t = s.on_spawn_end_spec(end, m);
            let built = end == action::SpawnEndView::Exited(Some(0i32));
            &&& built && !m.cancelled ==> t.state.phase is Push && t.actions.last() == command(
                "docker"@,
                seq!["push"@, s.image + ":"@ + s.tag],
                None,
            )
            &&& built && m.cancelled ==> ends(t.actions, DeployStatus::Failed, -2i32)
            &&& end matches action::SpawnEndView::Exited(c) ==> !built ==> ends(
                t.actions,
                DeployStatus::Failed,
                if c is Some {
                    c->0
                } else {
                    -1i32
                },
            )
            &&& end is NotStarted || end is Lost ==> ends(t.actions, DeployStatus::Failed, -1i32)
            &&& end is Cancelled ==> ends(t.actions, DeployStatus::Failed, -2i32)
            &&& !(built && !m.cancelled) ==> t.state.phase is Done
        }),
{
    reveal(docker_build::BuildView::build_ended);
}

/// A push that failed ends the deployment with its exit code. After one that
/// succeeded the image is tagged as latest, and the tag is pushed, exactly where
/// that is configured; a deployment that is cancelled ends here.
pub proof fn latest_tag_follows_the_push(
    s: docker_build::BuildView,
    r: Result<action::OutputView, Seq<char>>,
    m: Moment,
)
    requires
        s.exit_code == 0,
        s.stages.len() == if s.push_latest {
            4int
        } else {
            3int
        },
    ensures
        s.phase is Push ==> {
            let t = s.on_output_spec(r, m);
            &&& succeeded(r) && !m.cancelled && s.push_latest ==> t.state.phase is Tag
                && t.actions.last() == command(
                "docker"@,
                seq!["tag"@, s.image + ":"@ + s.tag, s.image + ":latest"@],
                None,
            )
            &&& succeeded(r) && !m.cancelled && !s.push_latest ==> ends(
                t.actions,
                DeployStatus::Success,
                0,
            )
            &&& succeeded(r) && m.cancelled ==> ends(t.actions, DeployStatus::Failed, -2i32)
            &&& !succeeded(r) && failure_code(r) != 0 ==> ends(
                t.actions,
                DeployStatus::Failed,
                failure_code(r),
            )
        },
        s.phase is Tag ==> {
            let t = s.on_output_spec(r, m);
            t.state.phase is PushLatest && t.actions.last() == command(
                "docker"@,
                seq!["push"@, s.image + ":latest"@],
                None,
            )
        },
        s.phase is PushLatest ==> ends(s.on_output_spec(r, m).actions, DeployStatus::Success, 0),
{
    reveal(docker_build::BuildView::pushed);
    reveal(docker_build::BuildView::tagged);
    reveal(docker_build::BuildView::pushed_latest);
}

/// Values that are there are kept in order, and nothing else is.
pub proof fn values_are_kept_in_order<T>(a: Seq<Option<T>>, b: Seq<Option<T>>, x: T)
    ensures
        collections::keep_some(a + b) == collections::keep_some(a) + collections::keep_some(b),
        collections::keep_some(seq![Some(x)]) == seq![x],
        collections::keep_some(seq![None::<T>]).len() == 0,
        collections::keep_some(Seq::<Option<T>>::empty()).len() == 0,
    decreases b.len(),
{
    if b.len() == 0 {
        assert(a + b =~= a);
        assert(collections::keep_some(a) + collections::keep_some(b) =~= collections::keep_some(a));
    } else {
        values_are_kept_in_order(a, b.drop_last(), x);
        assert((a + b).drop_last() =~= a + b.drop_last());
        assert(collections::keep_some(a + b) =~= collections::keep_some(a)
            + collections::keep_some(b));
    }
    assert(seq![Some(x)].drop_last() =~= Seq::<Option<T>>::empty());
    assert(collections::keep_some(seq![Some(x)].drop_last()).len() == 0);
    assert(seq![Some(x)].last() == Some(x));
    reveal_with_fuel(collections::keep_some, 2);
    assert(collections::keep_some(seq![Some(x)]) =~= seq![x]);
    assert(seq![None::<T>].drop_last() =~= Seq::<Option<T>>::empty());
}

/// A line of the listing of processes names a zombie exactly where it speaks of
/// docker or its builder, marks the process as defunct, and has the number of
/// the process as its second word. A line of the listing of ages names a hung
/// build exactly where its second word is more than 1800 seconds and the command
/// behind it is a build of docker.
pub proof fn processes_in_the_way(line: Seq<char>, pid: int)
    ensures
        ({
            let w = edit::words_spec(line);
            let docker = search::has_substring(line, "docker"@) || search::has_substring(
                line,
                "buildkit"@,
            );
            let dead = search::has_substring(line, "<defunct>"@) || search::has_substring(
                line,
                " Z "@,
            ) || search::has_substring(line, " Z+ "@);
            &&& docker && dead && w.len() >= 2 && number::parse_i32_spec(w[1]) == Some(pid)
                ==> zombies::zombie_of(line) == Some(number::signed_decimal_spec(pid))
            &&& !(docker && dead && w.len() >= 2 && number::parse_i32_spec(w[1]) is Some)
                ==> zombies::zombie_of(line) is None
        }),
        ({
            let w = edit::words_spec(line);
            let text = split::join_spec(w.subrange(2, w.len() as int), " "@);
            let builds = search::has_substring(text, "docker build"@) || search::has_substring(
                text,
                "docker-buildx"@,
            );
            let old = w.len() >= 3 && number::parse_signed_spec(w[1]) is Some
                && number::parse_signed_spec(w[1])->0 > 1800;
            &&& old && builds ==> zombies::hung_of(line) == Some(w[0])
            &&& !(old && builds) ==> zombies::hung_of(line) is None
        }),
        split::trim_spec(line).len() > 0 ==> zombies::pid_of(line) == Some(split::trim_spec(line)),
        split::trim_spec(line).len() == 0 ==> zombies::pid_of(line) is None,
{
}

/// What a list of processes to kill leads to: the one at `next`, by its number.
pub open spec fn kills(step: zombies::StepView, pids: Seq<Seq<char>>, next: int) -> bool {
    step.command == Some(command("kill"@, seq!["-9"@, pids[next]], None))
}

/// The removal lists all processes and kills the zombies among them, one by
/// one; then it lists ages and kills the builds that hang; then it lists the
/// build daemons, and kills those whose parent is the first process. Each one
/// that was killed is counted.
pub proof fn processes_are_removed_in_turn(
    c: zombies::CleanupView,
    r: Result<action::OutputView, Seq<char>>,
    pids: Seq<Seq<char>>,
    next: int,
)
    requires
        0 <= next < pids.len(),
        c.zombies < u64::MAX,
        c.hung < u64::MAX,
    ensures
        c.begin_spec().command == Some(command("ps"@, seq!["aux"@], None)),
        c.phase is ListAll && (r matches Ok(o) && zombies::zombies_of(o.stdout) == pids) ==> kills(
            c.on_output_spec(r),
            pids,
            0,
        ) && c.on_output_spec(r).state.phase == (zombies::PhaseView::KillZombie { pids, next: 0 }),
        c.phase == (zombies::PhaseView::KillZombie { pids, next }) ==> {
            let t = c.on_output_spec(r);
            &&& t.state.zombies == c.zombies + (if r is Ok {
                1int
            } else {
                0
            })
            &&& t.state.hung == c.hung
            &&& next + 1 < pids.len() ==> kills(t, pids, next + 1) && t.state.phase
                == (zombies::PhaseView::KillZombie { pids, next: next + 1 })
            &&& next + 1 == pids.len() ==> t.command == Some(
                command("ps"@, seq!["-eo"@, "pid,etimes,args"@], None),
            ) && t.state.phase is ListAges
        },
        c.phase is ListAges && (r matches Ok(o) && zombies::hung_builds_of(o.stdout) == pids)
            ==> kills(c.on_output_spec(r), pids, 0) && c.on_output_spec(r).state.phase
            == (zombies::PhaseView::KillHung { pids, next: 0 }),
        c.phase == (zombies::PhaseView::KillHung { pids, next }) ==> {
            let t = c.on_output_spec(r);
            &&& t.state.hung == c.hung + (if r is Ok {
                1int
            } else {
                0
            })
            &&& t.state.zombies == c.zombies
            &&& next + 1 < pids.len() ==> kills(t, pids, next + 1) && t.state.phase
                == (zombies::PhaseView::KillHung { pids, next: next + 1 })
            &&& next + 1 == pids.len() ==> t.command == Some(
                command("pgrep"@, seq!["-f"@, "buildkit"@], None),
            ) && t.state.phase is ListDaemons
        },
        c.phase is ListDaemons && (r matches Ok(o) && o.code == Some(0i32) && zombies::pids_of(
            o.stdout,
        ) == pids) ==> c.on_output_spec(r).command == Some(
            command("ps"@, seq!["-o"@, "ppid="@, "-p"@, pids[0]], None),
        ),
        c.phase is ListDaemons && !succeeded(r) ==> c.on_output_spec(r).command is None,
        c.phase == (zombies::PhaseView::AskParent { pids, next }) ==> {
            let t = c.on_output_spec(r);
            let orphan = r matches Ok(o) && split::trim_spec(o.stdout) == "1"@;
            &&& orphan ==> kills(t, pids, next) && t.state.phase == (zombies::PhaseView::KillOrphan {
                pids,
                next,
            })
            &&& !orphan && next + 1 < pids.len() ==> t.command == Some(
                command("ps"@, seq!["-o"@, "ppid="@, "-p"@, pids[next + 1]], None),
            )
            &&& !orphan && next + 1 == pids.len() ==> t.command is None
            &&& t.state.hung == c.hung && t.state.zombies == c.zombies
        },
        c.phase == (zombies::PhaseView::KillOrphan { pids, next }) ==> {
            let t = c.on_output_spec(r);
            &&& t.state.hung == c.hung + 1 && t.state.zombies == c.zombies
            &&& next + 1 < pids.len() ==> t.command == Some(
                command("ps"@, seq!["-o"@, "ppid="@, "-p"@, pids[next + 1]], None),
            )
            &&& next + 1 == pids.len() ==> t.command is None
        },
{
}

/// A process that can not be listed is not killed: where a listing fails or
/// shows none, the next listing follows.
pub proof fn nothing_listed_nothing_killed(
    c: zombies::CleanupView,
    r: Result<action::OutputView, Seq<char>>,
)
    ensures
        c.phase is ListAll && (r matches Ok(o) ==> zombies::zombies_of(o.stdout).len() == 0)
            ==> c.on_output_spec(r).command == Some(
            command("ps"@, seq!["-eo"@, "pid,etimes,args"@], None),
        ),
        c.phase is ListAges && (r matches Ok(o) ==> zombies::hung_builds_of(o.stdout).len() == 0)
            ==> c.on_output_spec(r).command == Some(
            command("pgrep"@, seq!["-f"@, "buildkit"@], None),
        ),
        c.phase is ListDaemons && (r matches Ok(o) ==> zombies::pids_of(o.stdout).len() == 0)
            ==> c.on_output_spec(r).command is None,
{
}

/// Once the way is clear, the image is built: a step of the removal that asks
/// for nothing more leads to the build, any other one to its command.
pub proof fn build_follows_the_removal(
    s: docker_build::BuildView,
    cleanup: zombies::CleanupView,
    r: Result<action::OutputView, Seq<char>>,
    m: Moment,
)
    requires
        s.phase == (docker_build::PhaseView::Cleanup { cleanup }),
    ensures
        ({
            let t = s.on_output_spec(r, m);
            let c = cleanup.on_output_spec(r);
            &&& c.command matches Some(a) ==> t.actions == seq![a] && t.state.phase
                == (docker_build::PhaseView::Cleanup { cleanup: c.state })
            &&& c.command is None ==> t.state.phase is Build && t.actions.last() is Spawn
        }),
{
    reveal(docker_build::BuildView::cleanup_stepped);
    let c = cleanup.on_output_spec(r);
    if let Some(a) = c.command {
        assert(s.on_output_spec(r, m).actions =~= seq![a]);
    }
}

/// A script deployment updates the repository, then runs the script of the
/// project in its directory, with the commit and the branch in its environment;
/// and it keeps to what is configured.
pub proof fn script_runs_as_configured(
    s: script::ScriptView,
    r: Result<action::OutputView, Seq<char>>,
    m: Moment,
)
    ensures
        s.begin_spec(m).actions.last() == command("git"@, seq!["pull"@], Some(s.work_dir)),
        s.begin_spec(m).state.phase is GitPull,
        s.begin_spec(m).state.script == s.script && s.begin_spec(m).state.work_dir == s.work_dir,
        s.begin_spec(m).state.commit_hash == s.commit_hash && s.begin_spec(m).state.branch
            == s.branch,
        s.phase is GitPull && !m.cancelled ==> s.on_output_spec(r, m).state.phase is Script
            && s.on_output_spec(r, m).actions.last() == (action::ActionView::Spawn {
            program: "bash"@,
            args: seq!["-c"@, s.script],
            dir: s.work_dir,
            envs: seq![
                (
                    "COMMIT_HASH"@,
                    if s.commit_hash is Some {
                        s.commit_hash->0
                    } else {
                        ""@
                    },
                ),
                (
                    "BRANCH"@,
                    if s.branch is Some {
                        s.branch->0
                    } else {
                        ""@
                    },
                ),
            ],
            filtered: true,
        }),
        s.phase is GitPull && m.cancelled ==> s.on_output_spec(r, m).state.phase is Done && ends(
            s.on_output_spec(r, m).actions,
            DeployStatus::Failed,
            -2i32,
        ),
{
    if s.phase is GitPull && !m.cancelled {
        let a = s.on_output_spec(r, m).actions.last();
        assert(a->Spawn_envs =~= seq![
            (
                "COMMIT_HASH"@,
                if s.commit_hash is Some {
                    s.commit_hash->0
                } else {
                    ""@
                },
            ),
            (
                "BRANCH"@,
                if s.branch is Some {
                    s.branch->0
                } else {
                    ""@
                },
            ),
        ]);
    }
}

/// A script that ended with exit code 0 is a success, and every other end of it
/// a failure: with its exit code, with -2 where it was cancelled, and with -1
/// where it has none.
pub proof fn script_decides(s: script::ScriptView, end: action::SpawnEndView, m: Moment)
    requires
        s.phase is Script,
    ensures
        ({
            let t = s.on_spawn_end_spec(end, m);
            &&& t.state.phase is Done
            &&& end matches action::SpawnEndView::Exited(c) ==> {
                &&& c == Some(0i32) ==> ends(t.actions, DeployStatus::Success, 0)
                &&& c != Some(0i32) ==> ends(
                    t.actions,
                    DeployStatus::Failed,
                    if c is Some {
                        c->0
                    } else {
                        -1i32
                    },
                )
            }
            &&& end is Cancelled ==> ends(t.actions, DeployStatus::Failed, -2i32)
            &&& end is NotStarted || end is Lost ==> ends(t.actions, DeployStatus::Failed, -1i32)
        }),
{
}

/// A line of the image builder begins with a number sign and a digit.
pub open spec fn of_the_builder(t: Seq<char>) -> bool {
    t.len() > 1 && t[0] == '#' && '0' <= t[1] <= '9'
}

/// The parts that a line of the image builder is sent on for.
pub open spec fn telling_parts() -> Seq<Seq<char>> {
    seq![
        "DONE"@,
        "CACHED"@,
        "ERROR"@,
        "error:"@,
        "warning:"@,
        "Compiling"@,
        "Building"@,
        "Downloading"@,
        "Downloaded"@,
        "[stage"@,
        "[builder"@,
        "FROM"@,
        "RUN"@,
        "COPY"@,
        "exporting"@,
    ]
}

proof fn lemma_builder_line(t: Seq<char>)
    ensures
        script::is_builder_line(t) == of_the_builder(t),
{
    reveal_strlit("#");
    assert("#"@.len() == 1 && "#"@[0] == '#');
    if t.len() > 0 {
        if t[0] == '#' {
            assert(t.subrange(0, 1) =~= "#"@);
        }
        assert(search::has_prefix(t, "#"@) ==> t[0] == '#');
    }
}

/// A line of the image builder is sent on exactly where one of the telling parts
/// stands in it.
pub proof fn builder_line_has_to_tell(raw: Seq<char>)
    requires
        of_the_builder(split::trim_spec(raw)),
    ensures
        script::line_matters(raw) <==> exists|k: int|
            0 <= k < 15 && search::has_substring(
                split::trim_spec(raw),
                #[trigger] telling_parts()[k],
            ),
{
    let t = split::trim_spec(raw);
    lemma_builder_line(t);
    let p = telling_parts();
    assert(p[0] == "DONE"@ && p[1] == "CACHED"@ && p[2] == "ERROR"@ && p[3] == "error:"@ && p[4]
        == "warning:"@ && p[5] == "Compiling"@ && p[6] == "Building"@ && p[7] == "Downloading"@
        && p[8] == "Downloaded"@ && p[9] == "[stage"@ && p[10] == "[builder"@ && p[11] == "FROM"@
        && p[12] == "RUN"@ && p[13] == "COPY"@ && p[14] == "exporting"@);
}

/// Of the other lines of a script, all are sent on but empty ones, the progress
/// of layers and progress bars.
pub proof fn noise_is_left_out(raw: Seq<char>)
    requires
        !of_the_builder(split::trim_spec(raw)),
    ensures
        ({
            let t = split::trim_spec(raw);
            let layer = search::has_substring(t, "sha256:"@) && (search::has_substring(
                t,
                "resolve"@,
            ) || search::has_substring(t, "Pulling"@) || search::has_substring(t, "Waiting"@));
            let bar = search::has_substring(t, "[>"@) || search::has_substring(t, "[ "@)
                || search::has_substring(t, "[="@);
            script::line_matters(raw) <==> t.len() > 0 && !layer && !bar
        }),
{
    lemma_builder_line(split::trim_spec(raw));
}

/// Where the video service is asked: on its port, or on 19527.
pub open spec fn service_url(s: xiaojincut::TaskView, path: Seq<char>) -> Seq<char> {
    "http://localhost:"@ + number::decimal_spec(
        if s.port is Some {
            s.port->0 as nat
        } else {
            19527
        },
    ) + "/api"@ + path
}

/// The last action asks the video service.
pub open spec fn asks(
    acts: Seq<action::ActionView>,
    url: Seq<char>,
    body: Option<Seq<(Seq<char>, Seq<char>)>>,
    secs: u64,
) -> bool {
    acts.len() > 0 && (acts.last() matches action::ActionView::Request {
        url: u,
        body: b,
        timeout_secs,
        ..
    } && u == url && b == body && timeout_secs == secs)
}

/// The video service is asked whether it runs; where it does, the task is put
/// to it: an import with its input, an export with its output, or a question.
/// A task that it does with a status of 200 to 299 is a success, and everything
/// else a failure.
pub proof fn video_task_is_put_to_the_service(
    s: xiaojincut::TaskView,
    reply: xiaojincut::ReplyView,
)
    ensures
        asks(s.begin_spec().actions, service_url(s, "/health"@), None, 5),
        s.begin_spec().state.phase is Health,
        s.begin_spec().state.task_type == s.task_type && s.begin_spec().state.input_path
            == s.input_path && s.begin_spec().state.output_dir == s.output_dir
            && s.begin_spec().state.port == s.port,
        s.phase is Health ==> {
            let t = s.on_reply_spec(reply);
            let runs = reply matches xiaojincut::ReplyView::Answered { status, .. } && 200 <= status
                <= 299;
            &&& runs && s.task_type == "import"@ && s.input_path is Some ==> asks(
                t.actions,
                service_url(s, "/import"@),
                Some(seq![("path"@, s.input_path->0)]),
                60,
            ) && t.state.phase is Task
            &&& runs && s.task_type == "import"@ && s.input_path is None ==> ends(
                t.actions,
                DeployStatus::Failed,
                1,
            )
            &&& runs && s.task_type == "export"@ && s.output_dir is Some ==> asks(
                t.actions,
                service_url(s, "/export"@),
                Some(seq![("output_dir"@, s.output_dir->0)]),
                300,
            ) && t.state.phase is Task
            &&& runs && s.task_type == "export"@ && s.output_dir is None ==> asks(
                t.actions,
                service_url(s, "/export"@),
                Some(Seq::empty()),
                300,
            ) && t.state.phase is Task
            &&& runs && s.task_type == "status"@ ==> asks(
                t.actions,
                service_url(s, "/status"@),
                None,
                10,
            ) && t.state.phase is Task
            &&& runs && s.task_type == "timeline"@ ==> asks(
                t.actions,
                service_url(s, "/timeline"@),
                None,
                10,
            ) && t.state.phase is Task
            &&& runs && s.task_type != "import"@ && s.task_type != "export"@ && s.task_type
                != "status"@ && s.task_type != "timeline"@ ==> ends(
                t.actions,
                DeployStatus::Failed,
                1,
            )
            &&& reply is Cancelled ==> ends(t.actions, DeployStatus::Failed, -1i32)
            &&& !runs && !(reply is Cancelled) ==> ends(t.actions, DeployStatus::Failed, 1)
        },
        s.phase is Task ==> {
            let t = s.on_reply_spec(reply);
            let done = reply matches xiaojincut::ReplyView::Answered { status, .. } && 200 <= status
                <= 299;
            &&& done ==> ends(t.actions, DeployStatus::Success, 0) && t.state.phase is Done
            &&& !done && !(reply is Cancelled) ==> ends(t.actions, DeployStatus::Failed, 1)
                && t.state.phase is Done
        },
{
    assert(xiaojincut::DEFAULT_SERVICE_PORT == 19527);
    lemma_task_names();
    if s.phase is Health {
        let t = s.on_reply_spec(reply);
        if t.actions.last() is Request && t.actions.last()->Request_body is Some {
            let b = t.actions.last()->Request_body->0;
            if s.task_type == "import"@ {
                assert(b =~= seq![("path"@, s.input_path->0)]);
            } else if s.output_dir is Some {
                assert(b =~= seq![("output_dir"@, s.output_dir->0)]);
            }
        }
    }
}

proof fn lemma_task_names()
    ensures
        "import"@ != "export"@,
        "import"@ != "status"@,
        "import"@ != "timeline"@,
        "export"@ != "status"@,
        "export"@ != "timeline"@,
        "status"@ != "timeline"@,
{
    reveal_strlit("import");
    reveal_strlit("export");
    reveal_strlit("status");
    reveal_strlit("timeline");
    assert("import"@[0] == 'i' && "export"@[0] == 'e' && "status"@[0] == 's' && "timeline"@[0]
        == 't');
}

} // verus!
