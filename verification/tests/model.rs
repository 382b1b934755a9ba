//! The engine against a plain model of the game, frame by frame.

use space_war::game::{Movable, Object};
use space_war::{FrameEnd, GamePool};

#[derive(Clone, Debug, PartialEq)]
struct Shot {
    x: i32,
    y: i32,
    friendly: bool,
    vel_y: i32,
    active: bool,
}

#[derive(Clone, Debug, PartialEq)]
struct Foe {
    x: i32,
    y: i32,
    active: bool,
    wait: u32,
    cadence: u32,
}

#[derive(Clone, Debug, PartialEq)]
struct Rock {
    x: i32,
    y: i32,
    vel_x: i32,
    active: bool,
}

#[derive(Clone, Debug, PartialEq)]
struct Model {
    x: i32,
    y: i32,
    vel_x: i32,
    wait: u32,
    score: i32,
    shots: Vec<Shot>,
    foes: Vec<Foe>,
    bullets: Vec<Shot>,
    rocks: Vec<Rock>,
    width: i32,
    height: i32,
    running: bool,
}

fn touch(a: (i32, i32, i32, i32), b: (i32, i32, i32, i32)) -> bool {
    a.0 <= b.2 && b.0 <= a.2 && a.1 <= b.3 && b.1 <= a.3
}

fn sweep<T: Clone>(pool: &mut Vec<T>, active: impl Fn(&T) -> bool) -> i32 {
    let mut removed = 0;
    let mut index = 0;
    while index < pool.len() {
        if active(&pool[index]) {
            index += 1;
        } else {
            pool.swap_remove(index);
            removed += 1;
        }
    }
    removed
}

impl Model {
    fn new(disp_width: i32, disp_height: i32) -> Model {
        let width = disp_width - 2;
        let height = disp_height - 12 - 2;
        Model {
            x: width / 2 - 5 + 1,
            y: height - 10 - 1,
            vel_x: 0,
            wait: 0,
            score: 0,
            shots: vec![],
            foes: vec![],
            bullets: vec![],
            rocks: vec![],
            width,
            height,
            running: true,
        }
    }

    fn draws_wanted(&self) -> usize {
        let rocks = (self.score / 40 + 1).min(20) - self.rocks.len() as i32;
        let foes = (self.score / 80 + 1).min(10) - self.foes.len() as i32;
        (rocks.max(0) + foes.max(0)) as usize
    }

    fn spawn(&mut self, draws: &[Option<u32>]) {
        let mut next = 0;
        let mut draw = || {
            let value = draws.get(next).copied().flatten();
            next += 1;
            value
        };
        while self.rocks.len() as i32 <= self.score / 40 && self.rocks.len() < 20 {
            let r = draw().unwrap_or(0);
            self.rocks.push(Rock {
                x: (r % (self.width as u32 - 10)) as i32,
                y: -9,
                vel_x: (r % 3) as i32 - 1,
                active: true,
            });
        }
        while self.foes.len() as i32 <= self.score / 80 && self.foes.len() < 10 {
            let r = draw().unwrap_or((self.width as u32 / 2) << 16 | (self.height as u32 / 2));
            let span = self.width as u32 - 10;
            self.foes.push(Foe {
                x: ((r >> 16) % span + 1) as i32,
                y: ((r & 0xffff) % span + 1) as i32,
                active: true,
                wait: 40,
                cadence: (40 - (self.score % 40) as u32) * 2 + 50,
            });
        }
        for foe in self.foes.iter_mut() {
            if foe.wait == 0 {
                foe.wait = foe.cadence;
                if self.bullets.len() < 100 {
                    self.bullets.push(Shot {
                        x: foe.x + 5 - 1,
                        y: foe.y + 3,
                        friendly: false,
                        vel_y: 2,
                        active: true,
                    });
                }
            }
        }
    }

    fn trigger(&mut self) {
        if self.wait == 0 && self.shots.len() < 4 {
            self.shots.push(Shot {
                x: self.x + 5 - 1,
                y: self.y - 3,
                friendly: true,
                vel_y: -3,
                active: true,
            });
            self.wait = 10;
        }
    }

    fn update(&mut self, left: bool, right: bool) {
        if self.wait != 0 {
            self.wait -= 1;
        }
        self.vel_x = match (left, right) {
            (true, false) => -2,
            (false, true) => 2,
            _ => 0,
        };
        let new_pos = self.x + self.vel_x;
        if new_pos <= 1 - 5 || new_pos + 5 >= self.width {
            self.vel_x = 0;
        }
        self.x += self.vel_x;
        for foe in self.foes.iter_mut() {
            if foe.wait > 0 {
                foe.wait -= 1;
            }
        }
        for shot in self.shots.iter_mut() {
            if shot.y + shot.vel_y < 1 {
                shot.active = false;
            }
            shot.y += shot.vel_y;
            if !shot.active {
                continue;
            }
            let frame = (shot.x, shot.y, shot.x + 3, shot.y + 3);
            let foe = self
                .foes
                .iter_mut()
                .find(|f| f.active && touch(frame, (f.x, f.y, f.x + 10, f.y + 10)));
            if let Some(foe) = foe {
                foe.active = false;
                shot.active = false;
                continue;
            }
            let rock = self
                .rocks
                .iter_mut()
                .find(|r| r.active && touch(frame, (r.x, r.y, r.x + 10, r.y + 10)));
            if let Some(rock) = rock {
                rock.active = false;
                shot.active = false;
            }
        }
        let zone = (self.x + 1, self.y + 1, self.x + 11 - 1, self.y + 10);
        for bullet in self.bullets.iter_mut() {
            if bullet.y + bullet.vel_y > self.height {
                bullet.active = false;
            }
            bullet.y += bullet.vel_y;
            if bullet.active && touch((bullet.x, bullet.y, bullet.x + 3, bullet.y + 3), zone) {
                self.running = false;
            }
        }
        for rock in self.rocks.iter_mut() {
            let new_pos = rock.x + rock.vel_x;
            if new_pos <= 1 || new_pos + 10 >= self.width {
                rock.vel_x = -rock.vel_x;
            }
            if rock.y + 1 >= self.height {
                rock.active = false;
            }
            rock.x += rock.vel_x;
            rock.y += 1;
            if rock.active && touch((rock.x, rock.y, rock.x + 10, rock.y + 10), zone) {
                self.running = false;
            }
        }
    }

    fn collect(&mut self) {
        sweep(&mut self.shots, |s| s.active);
        self.score += sweep(&mut self.foes, |f| f.active);
        sweep(&mut self.bullets, |b| b.active);
        self.score += sweep(&mut self.rocks, |r| r.active);
    }
}

fn shot_of(b: &space_war::game::Bullet) -> Shot {
    let (x, y) = b.get_pos();
    Shot {
        x: x as i32,
        y: y as i32,
        friendly: b.is_friendly(),
        vel_y: b.vel_y as i32,
        active: b.is_active(),
    }
}

fn model_of(g: &GamePool) -> Model {
    Model {
        x: g.player.x as i32,
        y: g.player.y as i32,
        vel_x: g.player.vel_x as i32,
        wait: g.player.cool_down as u32,
        score: g.player.player_score as i32,
        shots: g.player.bullets.iter().map(shot_of).collect(),
        foes: g
            .enemies
            .iter()
            .map(|e| Foe {
                x: e.x as i32,
                y: e.y as i32,
                active: e.active,
                wait: e.bullet_cool_down as u32,
                cadence: e.cool_down as u32,
            })
            .collect(),
        bullets: g.bullets.iter().map(shot_of).collect(),
        rocks: g
            .asteroids
            .iter()
            .map(|a| Rock { x: a.x as i32, y: a.y as i32, vel_x: a.vel_x as i32, active: a.active })
            .collect(),
        width: g.screen.width() as i32,
        height: g.screen.height() as i32,
        running: g.status,
    }
}

struct Dice(u64);

impl Dice {
    fn roll(&mut self) -> u32 {
        self.0 = self.0.wrapping_mul(6364136223846793005).wrapping_add(1442695040888963407);
        (self.0 >> 32) as u32
    }
}

fn play(seed: u64, disp_width: u8, disp_height: u8, frames: usize) -> (i16, bool) {
    let mut dice = Dice(seed);
    let mut game = GamePool::init(disp_width, disp_height);
    let mut model = Model::new(disp_width as i32, disp_height as i32);
    assert_eq!(model_of(&game), model);
    let mut over_at = None;
    for n in 0..frames {
        assert_eq!(game.draws_wanted(), model.draws_wanted());
        let mut draws = vec![];
        for _ in 0..game.draws_wanted() {
            let value = dice.roll();
            draws.push(if value % 7 == 0 { None } else { Some(dice.roll()) });
        }
        if dice.roll() % 5 == 0 {
            draws.pop();
        }
        let roll = dice.roll();
        let dir = (roll & 1 == 1, roll & 2 == 2);
        if roll & 12 == 0 {
            assert_eq!(game.player.pull_trigger(), {
                model.trigger();
                model.shots.len() < 4
            });
        }
        if roll & 48 == 0 {
            game.spawn(&draws);
            model.spawn(&draws);
            assert_eq!(model_of(&game), model);
            game.update(&dir);
            model.update(dir.0, dir.1);
            assert_eq!(model_of(&game), model);
            if roll & 64 == 0 {
                game.collect();
                model.collect();
            }
        } else {
            let end = game.frame(&draws, &dir);
            model.spawn(&draws);
            model.update(dir.0, dir.1);
            model.collect();
            assert_eq!(end, if model.running { FrameEnd::Running } else { FrameEnd::GameOver });
        }
        assert_eq!(model_of(&game), model);
        assert!(game.is_wf());
        assert!(game.can_update());
        assert_eq!(game.is_ok(), !model.running);
        if game.is_ok() && over_at.is_none() {
            over_at = Some(n);
        }
        if over_at.is_some() {
            assert!(game.is_ok());
        }
        assert!(game.player.is_in_bounds(&game.screen));
    }
    (game.player.player_score, game.is_ok())
}

#[test]
fn engine_agrees_with_the_model_on_the_usual_display() {
    let mut scores = vec![];
    for seed in 0..40 {
        scores.push(play(seed, 64, 128, 1500));
    }
    assert!(scores.iter().any(|(score, _)| *score > 0));
    assert!(scores.iter().any(|(_, over)| *over));
}

#[test]
fn engine_agrees_with_the_model_on_the_smallest_display() {
    for seed in 100..120 {
        play(seed, 13, 25, 600);
    }
}

#[test]
fn engine_agrees_with_the_model_on_the_largest_display() {
    for seed in 200..220 {
        play(seed, 255, 255, 1500);
    }
}

#[test]
fn engine_agrees_with_the_model_on_odd_displays() {
    for seed in 300..330 {
        let width = 13 + (seed * 7 % 243) as u8;
        let height = 25 + (seed * 11 % 231) as u8;
        play(seed, width, height, 800);
    }
}
