use installer::cli::{Line, Lvl, Sink};
use installer::exec::Reply;
use installer::pkgs::{holds, Batch, Data, Pkg, Pkgs, Progress, Task};

fn pkg(id: &str, version: &str) -> Pkg {
    Pkg {
        pkg: id.to_string(),
        version: version.to_string(),
        name: format!("{}-{}-x86_64.pkg.tar.zst", id, version),
        link: format!("https://example.org/packages/{}-{}-x86_64.pkg.tar.zst", id, version),
    }
}

fn recent() -> Pkgs {
    Pkgs {
        support: vec!["TensorFlow 2.15".to_string(), "PyTorch 2.1".to_string()],
        gcc: pkg("gcc12", "12.3"),
        gcc_libs: pkg("gcc12-libs", "12.3"),
        cuda: pkg("cuda", "12.2"),
        cudnn: pkg("cudnn", "8.9"),
    }
}

fn compatible() -> Pkgs {
    Pkgs {
        support: vec!["TensorFlow 2.12".to_string()],
        gcc: pkg("gcc11", "11.4"),
        gcc_libs: pkg("gcc11-libs", "11.4"),
        cuda: pkg("cuda", "11.8"),
        cudnn: pkg("cudnn", "8.6"),
    }
}

fn data() -> Data {
    Data { deps: "base-devel curl".to_string(), recent: recent(), compatible: compatible() }
}

fn texts(lines: &Vec<Line>) -> Vec<(Sink, String)> {
    lines.iter().map(|l: &Line| (l.sink, l.text.clone())).collect()
}

fn ok(output: &str) -> Reply {
    Ok(output.to_string())
}

fn err(error: &str) -> Reply {
    Err(error.to_string())
}

fn plan_lines(roles: Vec<usize>) -> (Option<String>, Option<String>) {
    let plan = recent().install(&roles);
    (plan.gcc.map(|c| c.line), plan.cuda.map(|c| c.line))
}

const GCC: &str = "/tmp/cuda_installer/gcc12-12.3-x86_64.pkg.tar.zst";
const LIBS: &str = "/tmp/cuda_installer/gcc12-libs-12.3-x86_64.pkg.tar.zst";
const CUDA: &str = "/tmp/cuda_installer/cuda-12.2-x86_64.pkg.tar.zst";
const CUDNN: &str = "/tmp/cuda_installer/cudnn-8.9-x86_64.pkg.tar.zst";

#[test]
fn packages_come_in_the_order_of_their_roles() {
    let bundle = recent();
    let all = bundle.packages();
    assert_eq!(all.len(), 4);
    assert_eq!(all[0].pkg, "gcc12");
    assert_eq!(all[1].pkg, "gcc12-libs");
    assert_eq!(all[2].pkg, "cuda");
    assert_eq!(all[3].pkg, "cudnn");
}

#[test]
fn package_of_each_role() {
    let bundle = compatible();
    assert_eq!(bundle.package(0), &bundle.gcc);
    assert_eq!(bundle.package(1), &bundle.gcc_libs);
    assert_eq!(bundle.package(2), &bundle.cuda);
    assert_eq!(bundle.package(3), &bundle.cudnn);
}

#[test]
fn packages_to_string_puts_blanks_between_the_names() {
    assert_eq!(recent().packages_to_string(), "gcc12 gcc12-libs cuda cudnn");
}

#[test]
fn goodbye_gives_the_closing_advice() {
    let lines = recent().goodbye();
    assert_eq!(
        texts(&lines),
        vec![
            (
                Sink::Stdout,
                "\nTo prevent the system from updating the packages, add the following to /etc/pacman.conf"
                    .to_string()
            ),
            (Sink::Log(Lvl::Info), "\t IgnorePkg = gcc12 gcc12-libs cuda cudnn".to_string()),
            (
                Sink::Stdout,
                "\nCommon Error\n# ERROR: libdevice not found at ./libdevice.10.bc".to_string()
            ),
            (Sink::Stdout, "To fix this error, run the following command:".to_string()),
            (
                Sink::Log(Lvl::Info),
                "\texport XLA_FLAGS=--xla_gpu_cuda_data_dir=/opt/cuda\n".to_string()
            ),
        ]
    );
}

#[test]
fn print_support_indents_each_configuration() {
    let lines = recent().print_support();
    assert_eq!(
        texts(&lines),
        vec![
            (Sink::Log(Lvl::Info), "\tTensorFlow 2.15".to_string()),
            (Sink::Log(Lvl::Info), "\tPyTorch 2.1".to_string()),
            (Sink::Stdout, "".to_string()),
        ]
    );
}

#[test]
fn print_support_of_nothing_is_one_empty_line() {
    let mut bundle = recent();
    bundle.support = Vec::new();
    assert_eq!(texts(&bundle.print_support()), vec![(Sink::Stdout, "".to_string())]);
}

#[test]
fn query_asks_the_package_database_quietly() {
    let c = pkg("cuda", "12.2").query();
    assert_eq!(c.line, "pacman -Q cuda");
    assert!(!c.interactive);
    assert!(!c.verbose);
}

#[test]
fn fetch_downloads_into_the_scratch_directory() {
    let c = pkg("cuda", "12.2").fetch();
    assert_eq!(
        c.line,
        "curl -o /tmp/cuda_installer/cuda-12.2-x86_64.pkg.tar.zst https://example.org/packages/cuda-12.2-x86_64.pkg.tar.zst"
    );
    assert!(c.interactive);
    assert!(c.verbose);
}

#[test]
fn path_is_directly_under_the_scratch_directory() {
    assert_eq!(pkg("cuda", "12.2").path(), CUDA);
}

#[test]
fn installed_needs_name_and_version_in_the_output() {
    let p = pkg("cuda", "12.2");
    assert!(p.installed(&ok("cuda 12.2.0-1\n")));
    assert!(!p.installed(&ok("cuda 11.8.0-1\n")));
    assert!(!p.installed(&ok("nccl 12.2.0-1\n")));
    assert!(!p.installed(&ok("")));
}

#[test]
fn installed_is_false_when_the_query_failed() {
    let p = pkg("cuda", "12.2");
    assert!(!p.installed(&err("Operation was canceled by the user.")));
    assert!(!p.installed(&err("cuda 12.2.0-1")));
}

#[test]
fn installed_matches_loosely() {
    let p = pkg("cuda", "12.2");
    assert!(p.installed(&ok("cuda-tools 112.25-3\n")));
}

#[test]
fn holds_finds_a_role() {
    let roles: Vec<usize> = vec![1, 3];
    assert!(!holds(&roles, 0));
    assert!(holds(&roles, 1));
    assert!(!holds(&roles, 2));
    assert!(holds(&roles, 3));
    assert!(!holds(&Vec::new(), 0));
}

#[test]
fn download_leaves_an_installed_package_alone() {
    let (progress, lines) = recent().download(Task::Query(2), &ok("cuda 12.2.0-1\n"));
    assert_eq!(progress, Progress::Present);
    assert_eq!(
        texts(&lines),
        vec![(
            Sink::Log(Lvl::Warning),
            "Package already installed: cuda-12.2-x86_64.pkg.tar.zst".to_string()
        )]
    );
}

#[test]
fn download_probes_a_package_that_is_not_installed() {
    let (progress, lines) =
        recent().download(Task::Query(0), &err("Operation was canceled by the user."));
    assert_eq!(progress, Progress::Then(Task::Probe(0)));
    assert!(lines.is_empty());
}

#[test]
fn download_probes_a_package_of_another_version() {
    let (progress, lines) = recent().download(Task::Query(3), &ok("cudnn 8.6.0-1\n"));
    assert_eq!(progress, Progress::Then(Task::Probe(3)));
    assert!(lines.is_empty());
}

#[test]
fn download_fetches_after_a_good_probe() {
    let (progress, lines) = recent().download(Task::Probe(1), &ok("HTTP/2 200 \r\n"));
    assert_eq!(progress, Progress::Then(Task::Fetch(1)));
    assert_eq!(texts(&lines), vec![(Sink::Log(Lvl::Success), "Valid link".to_string())]);
}

#[test]
fn download_gives_up_on_a_link_that_answers_badly() {
    let (progress, lines) = recent().download(Task::Probe(1), &ok("HTTP/2 404 \r\n"));
    assert_eq!(progress, Progress::Broken);
    assert_eq!(texts(&lines), vec![(Sink::Log(Lvl::Error), "Invalid link".to_string())]);
}

#[test]
fn download_gives_up_on_a_bad_status_with_the_good_one_in_a_header() {
    let (progress, lines) =
        recent().download(Task::Probe(0), &ok("HTTP/2 404 \r\nx-cache: HTTP/2 200\r\n\r\n"));
    assert_eq!(progress, Progress::Broken);
    assert_eq!(texts(&lines), vec![(Sink::Log(Lvl::Error), "Invalid link".to_string())]);
}

#[test]
fn download_gives_up_on_a_probe_that_failed() {
    let (progress, lines) = recent().download(Task::Probe(1), &err("no route"));
    assert_eq!(progress, Progress::Broken);
    assert_eq!(
        texts(&lines),
        vec![
            (Sink::Stderr, "Failed to check link: no route".to_string()),
            (Sink::Log(Lvl::Error), "Invalid link".to_string()),
        ]
    );
}

#[test]
fn download_keeps_a_fetched_package() {
    let (progress, lines) = recent().download(Task::Fetch(3), &ok(""));
    assert_eq!(progress, Progress::Stored);
    assert_eq!(
        texts(&lines),
        vec![(
            Sink::Log(Lvl::Success),
            "Package downloaded successfully: cudnn-8.9-x86_64.pkg.tar.zst".to_string()
        )]
    );
}

#[test]
fn download_gives_up_on_a_fetch_that_failed() {
    let (progress, lines) = recent().download(Task::Fetch(3), &err("disk full"));
    assert_eq!(progress, Progress::Broken);
    assert_eq!(
        texts(&lines),
        vec![(Sink::Log(Lvl::Error), "Failed to download package: disk full".to_string())]
    );
}

#[test]
fn download_knows_no_other_task() {
    let (progress, lines) = recent().download(Task::Update, &ok(""));
    assert_eq!(progress, Progress::Broken);
    assert!(lines.is_empty());
    assert_eq!(recent().download(Task::RemoveTmp, &ok("")).0, Progress::Broken);
    assert_eq!(recent().download(Task::Install(Batch::Gcc), &ok("")).0, Progress::Broken);
}

#[test]
fn install_of_nothing_has_no_command() {
    assert_eq!(plan_lines(vec![]), (None, None));
}

#[test]
fn install_of_everything_has_two_commands() {
    assert_eq!(
        plan_lines(vec![0, 1, 2, 3]),
        (
            Some(format!("sudo pacman -U {} {}", GCC, LIBS)),
            Some(format!("sudo pacman -U {} {}", CUDA, CUDNN)),
        )
    );
}

#[test]
fn install_commands_get_the_terminal() {
    let plan = recent().install(&vec![0, 2]);
    let gcc = plan.gcc.unwrap();
    let cuda = plan.cuda.unwrap();
    assert!(gcc.interactive && gcc.verbose);
    assert!(cuda.interactive && cuda.verbose);
}

#[test]
fn install_of_the_compiler_alone() {
    assert_eq!(plan_lines(vec![0]), (Some(format!("sudo pacman -U {} ", GCC)), None));
}

#[test]
fn install_of_the_support_library_alone() {
    assert_eq!(plan_lines(vec![1]), (Some(format!("sudo pacman -U  {}", LIBS)), None));
}

#[test]
fn install_of_the_toolkit_alone() {
    assert_eq!(plan_lines(vec![2]), (None, Some(format!("sudo pacman -U {} ", CUDA))));
}

#[test]
fn install_of_the_companion_alone() {
    assert_eq!(plan_lines(vec![3]), (None, Some(format!("sudo pacman -U  {}", CUDNN))));
}

#[test]
fn install_of_one_of_each_batch() {
    assert_eq!(
        plan_lines(vec![1, 2]),
        (
            Some(format!("sudo pacman -U  {}", LIBS)),
            Some(format!("sudo pacman -U {} ", CUDA)),
        )
    );
}

#[test]
fn install_does_not_mind_order_or_repetition() {
    assert_eq!(plan_lines(vec![3, 0, 3, 2, 0]), plan_lines(vec![0, 2, 3]));
    assert_eq!(
        plan_lines(vec![3, 2]),
        (None, Some(format!("sudo pacman -U {} {}", CUDA, CUDNN)))
    );
}

#[test]
fn batch_reports() {
    assert_eq!(
        texts(&Batch::Gcc.installed(&ok(""))),
        vec![(Sink::Log(Lvl::Success), "GCC installed successfully.".to_string())]
    );
    assert_eq!(
        texts(&Batch::Gcc.installed(&err("conflict"))),
        vec![(Sink::Log(Lvl::Error), "GCC not installed successfully: conflict".to_string())]
    );
    assert_eq!(
        texts(&Batch::Cuda.installed(&ok(""))),
        vec![(Sink::Log(Lvl::Success), "CUDA installed successfully.".to_string())]
    );
    assert_eq!(
        texts(&Batch::Cuda.installed(&err("conflict"))),
        vec![(
            Sink::Log(Lvl::Error),
            "Package was not installed successfully: conflict".to_string()
        )]
    );
}

#[test]
fn install_deps_updates_the_host() {
    let c = data().install_deps();
    assert_eq!(c.line, "sudo pacman -Syu base-devel curl");
    assert!(c.interactive);
    assert!(c.verbose);
}

#[test]
fn updated_reports_either_way() {
    assert_eq!(
        texts(&data().updated(&ok(""))),
        vec![(
            Sink::Log(Lvl::Success),
            "Dependencies installed successfully: base-devel curl".to_string()
        )]
    );
    assert_eq!(
        texts(&data().updated(&err("offline"))),
        vec![(Sink::Log(Lvl::Error), "Failed to install dependencies: offline".to_string())]
    );
}

#[test]
fn version_picks_the_recent_bundle_first() {
    let d = data();
    let (bundle, head) = d.version(0);
    assert_eq!(bundle, &d.recent);
    assert_eq!(head.sink, Sink::Log(Lvl::Info));
    assert_eq!(head.text, "\nSupporting packages for `Recent` version:");
}

#[test]
fn version_picks_the_compatible_bundle_second() {
    let d = data();
    let (bundle, head) = d.version(1);
    assert_eq!(bundle, &d.compatible);
    assert_eq!(head.text, "\nSupporting packages for `Compatible` version:");
}
