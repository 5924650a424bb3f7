//! The `pacman` arguments of an installation.
use vstd::prelude::*;

use crate::error::{AppError, AppErrorView};
use crate::pacman::command::CommandRun;
use crate::utils::order::string_views;
use crate::utils::text::{chars_of, owned};
use crate::utils::unique::{first_occurrences, lemma_first_occurrences_push, push_unique};
use crate::utils::validate::{valid_package_name, validate_package_name};

verus! {

/// What an installation run reports.
#[derive(Debug)]
pub struct InstallResult {
    pub packages: Vec<String>,
    pub stdout: String,
    pub stderr: String,
    pub success: bool,
}

/// The arguments that precede the package names of an installation.
pub open spec fn install_prefix() -> Seq<Seq<char>> {
    seq!["pacman"@, "-S"@, "--needed"@, "--noconfirm"@]
}

/// The index of the first invalid name of `names`, or its length when all are valid.
pub open spec fn first_invalid(names: Seq<Seq<char>>) -> int
    decreases names.len(),
{
    if names.len() == 0 {
        0
    } else if !valid_package_name(names[0]) {
        0
    } else {
        1 + first_invalid(names.drop_first())
    }
}

pub proof fn lemma_first_invalid(names: Seq<Seq<char>>, k: int)
    requires
        0 <= k <= names.len(),
        k < names.len() ==> !valid_package_name(names[k]),
        forall|j: int| 0 <= j < k ==> valid_package_name(#[trigger] names[j]),
    ensures
        first_invalid(names) == k,
    decreases k,
{
    if k > 0 {
        assert forall|j: int| 0 <= j < k - 1 implies valid_package_name(
            #[trigger] names.drop_first()[j],
        ) by {
            assert(names.drop_first()[j] == names[j + 1]);
        }
        lemma_first_invalid(names.drop_first(), k - 1);
    }
}

pub proof fn lemma_first_invalid_bounds(names: Seq<Seq<char>>)
    ensures
        0 <= first_invalid(names) <= names.len(),
    decreases names.len(),
{
    if names.len() > 0 {
        lemma_first_invalid_bounds(names.drop_first());
    }
}

/// The outcome of building installation arguments for `names`: an error when
/// the list is empty or when a name is invalid (the first invalid one is
/// named), else `pacman -S --needed --noconfirm` followed by the names, each once, in order.
pub open spec fn install_args_spec(names: Seq<Seq<char>>) -> Result<Seq<Seq<char>>, AppErrorView> {
    if names.len() == 0 {
        Err(AppErrorView::Config("No packages selected for installation."@))
    } else if first_invalid(names) < names.len() {
        Err(AppErrorView::InvalidPackageName(names[first_invalid(names)]))
    } else {
        Ok(install_prefix() + first_occurrences(names))
    }
}

/// The arguments of `pkexec` that install `package_names`, duplicates dropped.
pub fn build_install_args(package_names: &[String]) -> (r: Result<Vec<String>, AppError>)
    ensures
        match r {
            Ok(args) => install_args_spec(string_views(package_names@)) == Ok::<
                Seq<Seq<char>>,
                AppErrorView,
            >(string_views(args@)),
            Err(e) => install_args_spec(string_views(package_names@)) == Err::<
                Seq<Seq<char>>,
                AppErrorView,
            >(e@),
        },
{
    let ghost names = string_views(package_names@);
    if package_names.len() == 0 {
        return Err(AppError::Config(owned("No packages selected for installation.")));
    }
    let mut deduplicated: Vec<String> = Vec::new();
    let mut i: usize = 0;
    while i < package_names.len()
        invariant
            i <= package_names@.len(),
            names == string_views(package_names@),
            forall|j: int| 0 <= j < i ==> valid_package_name(#[trigger] names[j]),
            string_views(deduplicated@) == first_occurrences(names.take(i as int)),
        decreases package_names@.len() - i,
    {
        if !validate_package_name(package_names[i].as_str()) {
            proof {
                lemma_first_invalid(names, i as int);
            }
            return Err(AppError::InvalidPackageName(package_names[i].clone()));
        }
        let c = chars_of(package_names[i].as_str());
        proof {
            assert(names.take(i + 1) =~= names.take(i as int).push(names[i as int]));
            lemma_first_occurrences_push(names.take(i as int), names[i as int]);
        }
        push_unique(&mut deduplicated, &c);
        i += 1;
    }
    proof {
        lemma_first_invalid(names, names.len() as int);
        assert(names.take(names.len() as int) =~= names);
    }
    let mut args = vec![owned("pacman"), owned("-S"), owned("--needed"), owned("--noconfirm")];
    assert(string_views(args@) =~= install_prefix());
    let ghost head = string_views(args@);
    let mut k: usize = 0;
    while k < deduplicated.len()
        invariant
            k <= deduplicated@.len(),
            string_views(args@) == head + string_views(deduplicated@).take(k as int),
        decreases deduplicated@.len() - k,
    {
        let ghost before = string_views(args@);
        args.push(deduplicated[k].clone());
        assert(string_views(args@) =~= before.push(deduplicated@[k as int]@));
        assert(string_views(deduplicated@).take(k + 1) =~= string_views(deduplicated@).take(
            k as int,
        ).push(deduplicated@[k as int]@));
        k += 1;
    }
    assert(string_views(deduplicated@).take(deduplicated@.len() as int) =~= string_views(
        deduplicated@,
    ));
    Ok(args)
}

/// The error given when `pkexec` is missing.
pub open spec fn pkexec_missing_error() -> AppErrorView {
    AppErrorView::Config(
        "pkexec not found. Install polkit and make sure a polkit authentication agent is running."@,
    )
}

/// The arguments of `pkexec` that install `package_names`, given whether
/// `pkexec` exists: the arguments' error first, then a missing `pkexec`.
pub fn install_command(package_names: &[String], pkexec_found: bool) -> (r: Result<
    Vec<String>,
    AppError,
>)
    ensures
        match install_args_spec(string_views(package_names@)) {
            Err(ev) => r matches Err(e) && e@ == ev,
            Ok(args) => if pkexec_found {
                r matches Ok(a) && string_views(a@) == args
            } else {
                r matches Err(e) && e@ == pkexec_missing_error()
            },
        },
{
    let args = build_install_args(package_names)?;
    if !pkexec_found {
        return Err(
            AppError::Config(
                owned(
                    "pkexec not found. Install polkit and make sure a polkit authentication agent is running.",
                ),
            ),
        );
    }
    Ok(args)
}

/// What running the installation of `package_names` reports, given how the run ended.
pub fn install_packages(package_names: &[String], run: CommandRun) -> (r: Result<
    InstallResult,
    AppError,
>)
    ensures
        match run {
            CommandRun::NotStarted(m) => r matches Err(e) && e@ == AppErrorView::Io(m@),
            CommandRun::Exited { success, status, stdout, stderr } => r matches Ok(res)
                && string_views(res.packages@) == string_views(package_names@) && res.success
                == success && res.stdout@ == stdout@ && res.stderr@ == stderr@,
        },
{
    match run {
        CommandRun::NotStarted(message) => Err(AppError::Io(message)),
        CommandRun::Exited { success, status, stdout, stderr } => {
            let mut packages: Vec<String> = Vec::new();
            let mut i: usize = 0;
            while i < package_names.len()
                invariant
                    i <= package_names@.len(),
                    string_views(packages@) == string_views(package_names@).take(i as int),
                decreases package_names@.len() - i,
            {
                let ghost before = string_views(packages@);
                packages.push(package_names[i].clone());
                assert(string_views(packages@) =~= before.push(package_names@[i as int]@));
                assert(string_views(package_names@).take(i + 1) =~= string_views(
                    package_names@,
                ).take(i as int).push(package_names@[i as int]@));
                i += 1;
            }
            assert(string_views(package_names@).take(package_names@.len() as int) =~= string_views(
                package_names@,
            ));
            Ok(InstallResult { packages, stdout, stderr, success })
        },
    }
}

/// What running the installation of `package_name` reports, given how the run ended.
pub fn install_package(package_name: &str, run: CommandRun) -> (r: Result<InstallResult, AppError>)
    ensures
        match run {
            CommandRun::NotStarted(m) => r matches Err(e) && e@ == AppErrorView::Io(m@),
            CommandRun::Exited { success, status, stdout, stderr } => r matches Ok(res)
                && string_views(res.packages@) == seq![package_name@] && res.success == success
                && res.stdout@ == stdout@ && res.stderr@ == stderr@,
        },
{
    let names = vec![owned(package_name)];
    assert(string_views(names@) =~= seq![package_name@]);
    install_packages(names.as_slice(), run)
}

} // verus!
