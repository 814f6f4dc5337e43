//! Fetching sources: tarball downloads and git checkouts.
use vstd::prelude::*;
use crate::command::{CommandSpec, CommandSpecView};
use crate::cross::split_paths;
use crate::cross::split_colon_from;
use crate::error::Error;
use crate::path::{join, join_path};
use crate::plan::{push_step, steps_view, Step, StepView};
use crate::text::{chars_of, slice_chars, string_of};
use crate::types::{PackagePaths, PackagePathsView};

verus! {

/// The places where `program` is looked for: each directory of `PATH`
/// joined with it (the caller checks whether any of them exists).
pub open spec fn which_candidates_of(path_var: Option<Seq<char>>, program: Seq<char>) -> Seq<
    Seq<char>,
> {
    match path_var {
        Some(p) => split_colon_from(p, 0).map_values(|d: Seq<char>| join_path(d, program)),
        None => seq![],
    }
}

/// The places where `program` is looked for.
pub fn which_candidates(path_var: &Option<String>, program: &str) -> (r: Vec<String>)
    ensures
        r.deep_view() == which_candidates_of(path_var.deep_view(), program@),
{
    match path_var {
        None => {
            let r: Vec<String> = Vec::new();
            assert(r.deep_view() =~= Seq::<Seq<char>>::empty());
            r
        },
        Some(p) => {
            let dirs = split_paths(p.as_str());
            let ghost dv = dirs.deep_view();
            let mut out: Vec<String> = Vec::new();
            let mut i: usize = 0;
            while i < dirs.len()
                invariant
                    i <= dirs@.len(),
                    dv == dirs.deep_view(),
                    out.deep_view() == dv.take(i as int).map_values(
                        |d: Seq<char>| join_path(d, program@),
                    ),
                decreases dirs@.len() - i,
            {
                let ghost before = out.deep_view();
                let c = join(dirs[i].as_str(), program);
                out.push(c);
                assert(out.deep_view() =~= before.push(c@));
                assert(dv.take(i + 1).map_values(|d: Seq<char>| join_path(d, program@))
                    =~= dv.take(i as int).map_values(|d: Seq<char>| join_path(d, program@)).push(
                    join_path(dv[i as int], program@),
                ));
                i = i + 1;
            }
            assert(dv.take(dirs@.len() as int) =~= dv);
            out
        },
    }
}

/// The download command for one URL with `curl`.
pub open spec fn curl_command(target: Seq<char>, url: Seq<char>, cwd: Seq<char>) -> CommandSpecView {
    CommandSpecView::new("curl"@).with_arg("-L"@).with_arg("-f"@).with_arg("--retry"@).with_arg(
        "10"@,
    ).with_arg("--retry-all-errors"@).with_arg("--retry-delay"@).with_arg("2"@).with_arg(
        "-o"@,
    ).with_arg(target).with_arg(url).with_cwd(cwd)
}

/// The download command for one URL with `wget`.
pub open spec fn wget_command(target: Seq<char>, url: Seq<char>, cwd: Seq<char>) -> CommandSpecView {
    CommandSpecView::new("wget"@).with_arg("-O"@).with_arg(target).with_arg(url).with_cwd(cwd)
}

/// The download attempts for a file: one per URL, in order, with `curl` when
/// it is available, else with `wget`.
pub open spec fn download_attempts(
    target: Seq<char>,
    urls: Seq<Seq<char>>,
    cwd: Seq<char>,
    has_curl: bool,
) -> Seq<CommandSpecView> {
    if has_curl {
        urls.map_values(|u: Seq<char>| curl_command(target, u, cwd))
    } else {
        urls.map_values(|u: Seq<char>| wget_command(target, u, cwd))
    }
}

/// The commands that try to download `target`, one per URL in order:
/// `download_start` and `after_download_attempt` say which runs next and
/// when the download is done or has failed.
pub fn download_file(
    target: &str,
    urls: &Vec<String>,
    cwd: &str,
    has_curl: bool,
    has_wget: bool,
) -> (r: Result<Vec<CommandSpec>, Error>)
    ensures
        !has_curl && !has_wget ==> r == Err::<Vec<CommandSpec>, Error>(Error::NoDownloader),
        has_curl || has_wget ==> (r matches Ok(v) && v@.map_values(|c: CommandSpec| c@)
            == download_attempts(target@, urls.deep_view(), cwd@, has_curl)),
{
    if !has_curl && !has_wget {
        return Err(Error::NoDownloader);
    }
    let ghost uv = urls.deep_view();
    let mut out: Vec<CommandSpec> = Vec::new();
    let mut i: usize = 0;
    while i < urls.len()
        invariant
            i <= urls@.len(),
            uv == urls.deep_view(),
            out@.map_values(|c: CommandSpec| c@) == download_attempts(
                target@,
                uv.take(i as int),
                cwd@,
                has_curl,
            ),
        decreases urls@.len() - i,
    {
        let url = urls[i].as_str();
        let c = if has_curl {
            CommandSpec::new("curl").arg("-L").arg("-f").arg("--retry").arg("10").arg(
                "--retry-all-errors",
            ).arg("--retry-delay").arg("2").arg("-o").arg(target).arg(url).cwd(cwd)
        } else {
            CommandSpec::new("wget").arg("-O").arg(target).arg(url).cwd(cwd)
        };
        let ghost before = out@.map_values(|c: CommandSpec| c@);
        let ghost cv = c@;
        out.push(c);
        assert(out@.map_values(|c: CommandSpec| c@) =~= before.push(cv));
        assert(download_attempts(target@, uv.take(i + 1), cwd@, has_curl) =~= download_attempts(
            target@,
            uv.take(i as int),
            cwd@,
            has_curl,
        ).push(cv));
        i = i + 1;
    }
    assert(uv.take(urls@.len() as int) =~= uv);
    Ok(out)
}

/// The error when every URL of a download failed.
pub fn download_failed(target: &str) -> (r: Error)
    ensures
        r matches Error::DownloadFailed(t) && t@ == target@,
{
    Error::DownloadFailed(target.to_string())
}

/// What a download does next.
#[derive(Clone, Debug, PartialEq, Eq)]
pub enum DownloadNext {
    /// The file is there: the download is done.
    Done,
    /// Run the attempt at this index.
    Attempt(usize),
    /// No attempt worked: the download fails with this error.
    Failed(Error),
}

/// How a download of `target` with `attempts` attempts starts: with the
/// first attempt, or, when there is none, with its failure.
pub fn download_start(target: &str, attempts: usize) -> (r: DownloadNext)
    ensures
        attempts > 0 ==> r == DownloadNext::Attempt(0),
        attempts == 0 ==> (r matches DownloadNext::Failed(Error::DownloadFailed(t)) && t@ == target@),
{
    if attempts > 0 {
        DownloadNext::Attempt(0)
    } else {
        DownloadNext::Failed(download_failed(target))
    }
}

/// What follows the attempt at index `tried` of a download of `target`
/// with `attempts` attempts, given whether it worked: done when it worked,
/// else the next attempt, else the failure of the download.
pub fn after_download_attempt(target: &str, attempts: usize, tried: usize, worked: bool) -> (r:
    DownloadNext)
    requires
        tried < attempts,
    ensures
        worked ==> r == DownloadNext::Done,
        !worked && tried + 1 < attempts ==> r == DownloadNext::Attempt((tried + 1) as usize),
        !worked && tried + 1 == attempts ==> (r matches DownloadNext::Failed(Error::DownloadFailed(t))
            && t@ == target@),
{
    if worked {
        DownloadNext::Done
    } else if tried + 1 < attempts {
        DownloadNext::Attempt(tried + 1)
    } else {
        DownloadNext::Failed(download_failed(target))
    }
}

/// The text after the last `/` of a URL, or the whole URL.
pub open spec fn last_segment(url: Seq<char>) -> Seq<char>
    decreases url.len(),
{
    if url.len() == 0 {
        url
    } else if url.last() == '/' {
        seq![]
    } else {
        last_segment(url.drop_last()).push(url.last())
    }
}

/// The file name of a package's tarball: the last segment of its first URL,
/// or the package name when it has no URL.
pub open spec fn tarball_name_of(urls: Seq<Seq<char>>, name: Seq<char>) -> Seq<char> {
    if urls.len() > 0 {
        last_segment(urls[0])
    } else {
        name
    }
}

/// The file name of a package's tarball.
pub fn tarball_name(urls: &Vec<String>, name: &str) -> (r: String)
    ensures
        r@ == tarball_name_of(urls.deep_view(), name@),
{
    if urls.len() == 0 {
        return name.to_string();
    }
    let u = chars_of(urls[0].as_str());
    let mut k: usize = u.len();
    while k > 0 && u[k - 1] != '/'
        invariant
            k <= u@.len(),
            forall|j: int| k <= j < u@.len() ==> u@[j] != '/',
        decreases k,
    {
        k = k - 1;
    }
    proof {
        lemma_last_segment_is(u@, k as int);
    }
    let seg = slice_chars(&u, k, u.len());
    string_of(&seg)
}

proof fn lemma_last_segment_is(u: Seq<char>, k: int)
    requires
        0 <= k <= u.len(),
        forall|j: int| k <= j < u.len() ==> u[j] != '/',
        k > 0 ==> u[k - 1] == '/',
    ensures
        last_segment(u) == u.subrange(k, u.len() as int),
    decreases u.len(),
{
    if u.len() == 0 {
    } else if u.len() == k {
        assert(u.last() == '/');
        assert(u.subrange(k, u.len() as int) =~= Seq::<char>::empty());
    } else {
        lemma_last_segment_is(u.drop_last(), k);
        assert(u.subrange(k, u.len() as int) =~= u.drop_last().subrange(k, u.len() - 1).push(
            u.last(),
        ));
    }
}

/// The steps that fetch a tarball into a package's source directory.
pub open spec fn tarball_fetch_steps(paths: PackagePathsView, urls: Seq<Seq<char>>, name: Seq<char>) -> Seq<
    StepView,
> {
    let tarball = join_path(paths.root, tarball_name_of(urls, name));
    seq![
        StepView::EnsureDir(paths.root),
        StepView::EnsureDir(paths.stamp),
        StepView::RemoveDirIfExists(paths.src),
        StepView::RemovePath(tarball),
        StepView::Download(tarball, urls, paths.root),
        StepView::EnsureDir(paths.src),
        StepView::Run(
            CommandSpecView::new("tar"@).with_arg("-xf"@).with_arg(tarball).with_arg(
                "--strip-components=1"@,
            ).with_arg("-C"@).with_arg(paths.src),
        ),
    ]
}

/// Fetching a tarball: the previous source tree and
/// tarball are removed, the tarball is downloaded into the work directory
/// and unpacked into the source directory.
pub fn tarball_fetch(paths: &PackagePaths, urls: &Vec<String>, name: &str) -> (r: Vec<Step>)
    ensures
        steps_view(r@) == tarball_fetch_steps(paths@, urls.deep_view(), name@),
{
    let tname = tarball_name(urls, name);
    let tarball = join(paths.root.as_str(), tname.as_str());
    let mut v: Vec<Step> = Vec::new();
    push_step(&mut v, Step::EnsureDir(paths.root.clone()));
    push_step(&mut v, Step::EnsureDir(paths.stamp.clone()));
    push_step(&mut v, Step::RemoveDirIfExists(paths.src.clone()));
    push_step(&mut v, Step::RemovePath(tarball.clone()));
    push_step(
        &mut v,
        Step::Download { target: tarball.clone(), urls: urls.clone(), cwd: paths.root.clone() },
    );
    push_step(&mut v, Step::EnsureDir(paths.src.clone()));
    push_step(
        &mut v,
        Step::Run(
            CommandSpec::new("tar").arg("-xf").arg(tarball.as_str()).arg(
                "--strip-components=1",
            ).arg("-C").arg(paths.src.as_str()),
        ),
    );
    assert(steps_view(v@) =~= tarball_fetch_steps(paths@, urls.deep_view(), name@)) by {
        broadcast use vstd::std_specs::vec::vec_clone_deep_view_proof;
    }
    v
}

/// The steps that check out a git repository into a package's source
/// directory.
pub open spec fn git_fetch_steps(paths: PackagePathsView, url: Seq<char>, commit: Seq<char>) -> Seq<
    StepView,
> {
    seq![
        StepView::EnsureDir(paths.root),
        StepView::EnsureDir(paths.stamp),
        StepView::SkipRestIfDir(join_path(paths.src, ".git"@)),
        StepView::RemoveDirIfExists(paths.src),
        StepView::Run(
            CommandSpecView::new("git"@).with_arg("clone"@).with_arg(url).with_arg(paths.src),
        ),
        StepView::Run(
            CommandSpecView::new("git"@).with_arg("checkout"@).with_arg(commit).with_cwd(
                paths.src,
            ),
        ),
    ]
}

/// Checking out a git repository: an existing
/// clone is kept; anything else in the source directory is removed, then
/// the repository is cloned and the commit checked out.
pub fn git_clone_fetch(paths: &PackagePaths, url: &str, commit: &str) -> (r: Vec<Step>)
    ensures
        steps_view(r@) == git_fetch_steps(paths@, url@, commit@),
{
    let mut v: Vec<Step> = Vec::new();
    push_step(&mut v, Step::EnsureDir(paths.root.clone()));
    push_step(&mut v, Step::EnsureDir(paths.stamp.clone()));
    push_step(&mut v, Step::SkipRestIfDir(join(paths.src.as_str(), ".git")));
    push_step(&mut v, Step::RemoveDirIfExists(paths.src.clone()));
    push_step(
        &mut v,
        Step::Run(CommandSpec::new("git").arg("clone").arg(url).arg(paths.src.as_str())),
    );
    push_step(
        &mut v,
        Step::Run(CommandSpec::new("git").arg("checkout").arg(commit).cwd(paths.src.as_str())),
    );
    assert(steps_view(v@) =~= git_fetch_steps(paths@, url@, commit@));
    v
}

} // verus!
