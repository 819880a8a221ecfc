use config_creator::download::{
    BarLevel, Control, Download, DownloadView, Progress, State, ZERO_PERCENT,
};

fn bits(percentage: f32) -> u32 {
    percentage.to_bits()
}

#[test]
fn zero_percent_is_the_float_zero() {
    assert_eq!(f32::from_bits(ZERO_PERCENT), 0.0);
    assert_eq!(ZERO_PERCENT, bits(0.0));
}

#[test]
fn new_download_is_the_default_one() {
    assert_eq!(Download::new(7), Download { id: 0, state: State::Idle });
    assert_eq!(Download::new(0), Download::default());
}

#[test]
fn start_begins_at_zero_unless_running() {
    for state in [State::Idle, State::Finished, State::Errored] {
        let mut download = Download { id: 3, state };
        download.start();
        assert_eq!(download, Download { id: 3, state: State::Downloading { progress: bits(0.0) } });
    }
    let mut running = Download { id: 3, state: State::Downloading { progress: bits(42.5) } };
    running.start();
    assert_eq!(running, Download { id: 3, state: State::Downloading { progress: bits(42.5) } });
}

#[test]
fn running_download_follows_reports() {
    let running = Download { id: 1, state: State::Downloading { progress: bits(10.0) } };

    let mut download = running;
    download.progress(Progress::Started);
    assert_eq!(download.state, State::Downloading { progress: bits(0.0) });

    let mut download = running;
    download.progress(Progress::Advanced(bits(55.25)));
    assert_eq!(download.state, State::Downloading { progress: bits(55.25) });

    let mut download = running;
    download.progress(Progress::Finished);
    assert_eq!(download.state, State::Finished);

    let mut download = running;
    download.progress(Progress::Errored);
    assert_eq!(download.state, State::Errored);
    assert_eq!(download.id, 1);
}

#[test]
fn download_that_is_not_running_ignores_reports() {
    for state in [State::Idle, State::Finished, State::Errored] {
        for report in [
            Progress::Started,
            Progress::Advanced(bits(50.0)),
            Progress::Finished,
            Progress::Errored,
        ] {
            let mut download = Download { id: 2, state };
            download.progress(report);
            assert_eq!(download, Download { id: 2, state });
        }
    }
}

#[test]
fn only_a_running_download_has_a_subscription() {
    assert_eq!(Download { id: 5, state: State::Idle }.subscription(), None);
    assert_eq!(Download { id: 5, state: State::Finished }.subscription(), None);
    assert_eq!(Download { id: 5, state: State::Errored }.subscription(), None);
    assert_eq!(
        Download { id: 5, state: State::Downloading { progress: bits(1.0) } }.subscription(),
        Some(5)
    );
}

#[test]
fn view_shows_bar_and_control_of_each_state() {
    assert_eq!(
        Download { id: 4, state: State::Idle }.view(),
        DownloadView { id: 4, bar: BarLevel::Empty, control: Control::Start }
    );
    assert_eq!(
        Download { id: 4, state: State::Downloading { progress: bits(33.3) } }.view(),
        DownloadView { id: 4, bar: BarLevel::At(bits(33.3)), control: Control::Percentage }
    );
    assert_eq!(
        Download { id: 4, state: State::Finished }.view(),
        DownloadView { id: 4, bar: BarLevel::Full, control: Control::StartAgain }
    );
    assert_eq!(
        Download { id: 4, state: State::Errored }.view(),
        DownloadView { id: 4, bar: BarLevel::Empty, control: Control::TryAgain }
    );
}

#[test]
fn a_download_runs_from_start_to_finish() {
    let mut download = Download::new(1);
    assert_eq!(download.view().control, Control::Start);
    download.start();
    download.progress(Progress::Started);
    download.progress(Progress::Advanced(bits(50.0)));
    assert_eq!(download.view().bar, BarLevel::At(bits(50.0)));
    download.progress(Progress::Finished);
    assert_eq!(download.view().bar, BarLevel::Full);
    assert_eq!(download.subscription(), None);
    download.start();
    assert_eq!(download.state, State::Downloading { progress: ZERO_PERCENT });
}
