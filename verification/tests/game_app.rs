use adamant::game::{GameApp, GameCore};
use adamant::params::InitParams;
use adamant::timer::GameTimer;

struct CountingApp {
    updates: u64,
    renders: u64,
    active: bool,
}

impl GameApp for CountingApp {
    fn get_params(&self) -> InitParams {
        InitParams::new(0, 320, 240)
    }

    fn activate(&mut self) {
        self.active = true;
    }

    fn deactivate(&mut self) {
        self.active = false;
    }

    fn update(&mut self, _timer: &GameTimer) {
        self.updates += 1;
    }

    fn render(&self, _timer: &GameTimer) {
        let _ = self.renders;
    }
}

#[test]
fn game_core_carries_the_application() {
    let app = CountingApp { updates: 0, renders: 0, active: false };
    let mut core = GameCore::new(app);
    assert_eq!(core.app.updates, 0);

    core.app.activate();
    assert!(core.app.active);

    let mut timer = GameTimer::new(0);
    timer.tick(16000);
    core.app.update(&timer);
    core.app.render(&timer);
    assert_eq!(core.app.updates, 1);

    core.app.deactivate();
    assert!(!core.app.active);
    assert_eq!(core.app.get_params().window_width, 320);
}
