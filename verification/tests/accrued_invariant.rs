use creditra::account::AccountId;
use creditra::credit::borrow::{draw_credit, repay_credit};
use creditra::credit::lifecycle::{close_credit_line, default_credit_line, open_credit_line};
use creditra::credit::types::{CreditLineData, CreditStatus, DrawLimits, TokenFunds};

const BORROWER_COUNT: usize = 4;
const STEPS_PER_SEED: usize = 128;
const SEEDS: [u64; 4] = [7, 42, 1_337, 20_240_527];

struct Lcg64 {
    state: u64,
}

impl Lcg64 {
    fn new(seed: u64) -> Self {
        Self { state: seed }
    }

    fn next_u64(&mut self) -> u64 {
        self.state = self
            .state
            .wrapping_mul(6_364_136_223_846_793_005)
            .wrapping_add(1_442_695_040_888_963_407);
        self.state
    }

    fn index(&mut self, upper_exclusive: usize) -> usize {
        (self.next_u64() as usize) % upper_exclusive
    }

    fn range_i128(&mut self, inclusive_max: i128) -> i128 {
        1 + (self.next_u64() as i128 % inclusive_max.max(1))
    }

    fn range_u64(&mut self, inclusive_max: u64) -> u64 {
        1 + (self.next_u64() % inclusive_max.max(1))
    }
}

fn account(i: usize) -> AccountId {
    AccountId { strkey: format!("GBORROWER{i}") }
}

fn no_limits() -> DrawLimits {
    DrawLimits {
        draws_frozen: false,
        borrower_blocked: false,
        max_draw_amount: None,
        min_draw_interval: None,
        last_draw_ts: None,
        max_total_exposure: None,
        total_utilized: 0,
    }
}

/// The simulated contract: one optional line per borrower, the reserve, the
/// borrowers' token balances (no allowance is ever granted) and the clock.
struct World {
    lines: Vec<Option<CreditLineData>>,
    reserve: i128,
    balances: Vec<i128>,
    now: u64,
}

fn setup() -> World {
    let mut lines = Vec::new();
    for i in 0..BORROWER_COUNT {
        let credit_limit = 50_000_i128 + (i as i128 * 20_000_i128);
        let rate_bps = 1_000_u32 + (i as u32 * 500_u32);
        let score = 30_u32 + (i as u32 * 10_u32);
        let line = open_credit_line(false, &None, account(i), credit_limit, rate_bps, score, (None, None), 0).unwrap().line;
        lines.push(Some(line));
    }
    World { lines, reserve: 100_000_000, balances: vec![50_000_000; BORROWER_COUNT], now: 0 }
}

fn assert_accrued_le_utilized(world: &World, step_label: &str) {
    for line in world.lines.iter().flatten() {
        assert!(line.accrued_interest >= 0, "{step_label}: accrued_interest is negative ({})", line.accrued_interest);
        assert!(
            line.accrued_interest <= line.utilized_amount,
            "{step_label}: accrued_interest ({}) > utilized_amount ({})",
            line.accrued_interest,
            line.utilized_amount,
        );
    }
}

#[derive(Debug, Clone, Copy, PartialEq, Eq)]
enum Op {
    Draw,
    Repay,
    Default,
    Reopen,
}

fn valid_ops(status: CreditStatus, utilized: i128, limit: i128) -> Vec<Op> {
    let mut ops = vec![];
    match status {
        CreditStatus::Active => {
            if utilized < limit {
                ops.push(Op::Draw);
            }
            ops.push(Op::Default);
        }
        CreditStatus::Suspended | CreditStatus::Defaulted | CreditStatus::Restricted => {
            ops.push(Op::Default);
        }
        CreditStatus::Closed => {}
    }
    if status != CreditStatus::Closed && utilized > 0 {
        ops.push(Op::Repay);
    }
    ops.push(Op::Reopen);
    ops
}

#[derive(Debug, Default, Clone, Copy)]
struct Counters {
    draws: u32,
    repays: u32,
    defaults: u32,
    reopens: u32,
    transitions: u32,
}

impl Counters {
    fn merge(&mut self, other: Self) {
        self.draws += other.draws;
        self.repays += other.repays;
        self.defaults += other.defaults;
        self.reopens += other.reopens;
        self.transitions += other.transitions;
    }
}

fn try_draw(world: &mut World, i: usize, amount: i128) {
    let line = world.lines[i].clone();
    if let Ok(updated) = draw_credit(line, &account(i), amount, world.now, &no_limits(), Some(world.reserve)) {
        world.reserve -= amount;
        world.balances[i] += amount;
        world.lines[i] = Some(updated);
    }
}

fn try_repay(world: &mut World, i: usize, amount: i128) {
    let line = world.lines[i].clone();
    let funds = Some(TokenFunds { allowance: 0, balance: world.balances[i] });
    if let Ok(out) = repay_credit(line, amount, world.now, None, funds) {
        world.balances[i] -= out.effective_repay;
        world.reserve += out.effective_repay;
        world.lines[i] = Some(out.line);
    }
}

fn try_open(world: &mut World, i: usize, limit: i128, rate: u32, score: u32) {
    if let Ok(out) = open_credit_line(false, &world.lines[i], account(i), limit, rate, score, (None, None), world.now) {
        world.lines[i] = Some(out.line);
    }
}

fn run_seed(seed: u64) -> Counters {
    let mut world = setup();
    let mut rng = Lcg64::new(seed);
    let mut counters = Counters::default();

    assert_accrued_le_utilized(&world, "initial");

    for step in 0..STEPS_PER_SEED {
        let delta_secs = rng.range_u64(365 * 24 * 3600);
        world.now += delta_secs;

        let bidx = rng.index(BORROWER_COUNT);
        let line = match world.lines[bidx].clone() {
            Some(l) => l,
            None => continue,
        };

        let ops = valid_ops(line.status, line.utilized_amount, line.credit_limit);
        if ops.is_empty() {
            continue;
        }
        let op = ops[rng.index(ops.len())];

        match op {
            Op::Draw => {
                let headroom = (line.credit_limit - line.utilized_amount).max(1);
                let amount = rng.range_i128(headroom.min(10_000));
                try_draw(&mut world, bidx, amount);
                counters.draws += 1;
            }
            Op::Repay => {
                let amount = rng.range_i128((line.utilized_amount + 5_000).max(1));
                try_repay(&mut world, bidx, amount);
                counters.repays += 1;
            }
            Op::Default => {
                if let Ok(update) = default_credit_line(false, Some(line), world.now) {
                    if update.changed {
                        world.lines[bidx] = Some(update.line);
                    }
                }
                counters.defaults += 1;
            }
            Op::Reopen => {
                let new_limit = 60_000_i128 + (bidx as i128 * 15_000_i128);
                let new_rate = 1_200_u32 + (bidx as u32 * 400_u32);
                let new_score = 35_u32 + (bidx as u32 * 8_u32);
                try_open(&mut world, bidx, new_limit, new_rate, new_score);
                counters.reopens += 1;
            }
        }

        let label = format!("seed={seed} step={step} op={op:?}");
        assert_accrued_le_utilized(&world, &label);
        counters.transitions += 1;
    }

    // Draw, wait a year, repay part, close once nothing is owed.
    try_open(&mut world, 0, 100_000, 2_000, 50);
    assert_accrued_le_utilized(&world, "scenario:open");
    try_draw(&mut world, 0, 50_000);
    assert_accrued_le_utilized(&world, "scenario:draw");
    world.now += 365 * 24 * 3600;
    try_repay(&mut world, 0, 10_000);
    assert_accrued_le_utilized(&world, "scenario:repay_partial");
    let line = world.lines[0].clone().unwrap();
    if line.utilized_amount == 0 {
        let admin = AccountId { strkey: "GADMIN".to_string() };
        if let Ok(update) = close_credit_line(false, Some(line), &account(0), &admin, &admin) {
            world.lines[0] = Some(update.line);
        }
        assert_accrued_le_utilized(&world, "scenario:close");
    }

    counters
}

#[test]
fn accrued_interest_le_utilized_amount_invariant() {
    let mut total = Counters::default();
    for seed in SEEDS {
        let c = run_seed(seed);
        total.merge(c);
    }
    assert!(total.transitions >= 512, "invariant was checked fewer than 512 times (got {})", total.transitions);
    assert!(total.draws > 0, "draw path was not exercised");
    assert!(total.repays > 0, "repay path was not exercised");
}

#[test]
fn invariant_run_is_deterministic_for_fixed_seed() {
    let a = run_seed(42);
    let b = run_seed(42);
    assert_eq!(a.draws, b.draws);
    assert_eq!(a.repays, b.repays);
    assert_eq!(a.transitions, b.transitions);
}
