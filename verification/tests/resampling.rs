use particle_filter::resample::resample;

// Draws `n` sorted sample positions over `[0, total)` the way the improved
// particle filter of Carpenter, Clifford and Fernhead generates them: n + 1
// unit-exponential spacings (each -ln(u) for u uniform in (0,1)) are summed,
// and the first n cumulative sums, normalized by the last, are n ordered
// uniform samples, here scaled onto the total weight mass.
fn draw_positions(n: usize, total: u64) -> Vec<u64> {
    assert!(total > 0);
    let mut cumulative: Vec<f64> = Vec::with_capacity(n + 1);
    let mut acc = 0.0f64;
    for _ in 0..=n {
        let mut u = rand::random::<f64>();
        while u <= 0.0 {
            u = rand::random::<f64>();
        }
        acc += -u.ln();
        cumulative.push(acc);
    }
    let normalizer = *cumulative.last().unwrap();
    (0..n)
        .map(|i| {
            let p = (cumulative[i] / normalizer * total as f64) as u64;
            p.min(total - 1)
        })
        .collect()
}

#[test]
fn resample_output_length_equals_input_length() {
    for n in [1usize, 2, 5, 17, 100] {
        let values: Vec<i64> = (0..n as i64).collect();
        let weights: Vec<u64> = (0..n as u64).map(|w| w % 5 + 1).collect();
        let total: u64 = weights.iter().sum();
        let positions = draw_positions(n, total);
        let out = resample(&values, &weights, &positions);
        assert_eq!(out.len(), n);
    }
}

#[test]
fn resample_single_support_selects_only_it() {
    let values: Vec<i64> = vec![1, 2, 3, 4, 5];
    let weights: Vec<u64> = vec![0, 0, 1, 0, 0];
    for _ in 0..100 {
        let positions = draw_positions(5, 1);
        let out = resample(&values, &weights, &positions);
        assert_eq!(out, vec![3, 3, 3, 3, 3]);
    }
}

#[test]
fn resample_zero_weight_items_never_selected() {
    let values: Vec<i64> = vec![1, 2, 3, 4];
    let weights: Vec<u64> = vec![0, 7, 0, 3];
    for _ in 0..200 {
        let positions = draw_positions(4, 10);
        let out = resample(&values, &weights, &positions);
        for v in out {
            assert!(v == 2 || v == 4);
        }
    }
}

#[test]
fn resample_positions_partition_the_mass_exactly() {
    // One position on every point of the mass: each item is emitted exactly
    // its own weight's number of times - the weights, as fractions of the
    // total, sum to exactly one population.
    // resample takes one position per output slot, so the three weighted
    // items are padded with zero-weight slots up to the ten outputs.
    let values: Vec<i64> = vec![10, 20, 30, 0, 0, 0, 0, 0, 0, 0];
    let weights: Vec<u64> = vec![2, 3, 5, 0, 0, 0, 0, 0, 0, 0];
    let positions: Vec<u64> = (0..10).collect();
    let out = resample(&values, &weights, &positions);
    assert_eq!(out, vec![10, 10, 20, 20, 20, 30, 30, 30, 30, 30]);
}

#[test]
fn resample_frequencies_converge_to_weights() {
    // Weights 0.1, 0.2, 0.4, 0.2, 0.1 in mass units of one thousandth.
    let values: Vec<i64> = vec![1, 2, 3, 4, 5];
    let weights: Vec<u64> = vec![100, 200, 400, 200, 100];
    let total: u64 = 1000;
    let runs = 10_000usize;
    let mut tally = [0usize; 5];
    for _ in 0..runs {
        let positions = draw_positions(5, total);
        let out = resample(&values, &weights, &positions);
        for v in out {
            tally[(v - 1) as usize] += 1;
        }
    }
    let samples = (runs * 5) as f64;
    let expected = [0.1, 0.2, 0.4, 0.2, 0.1];
    for k in 0..5 {
        let freq = tally[k] as f64 / samples;
        assert!(
            (freq - expected[k]).abs() < 0.03,
            "value {} selected with frequency {}, expected about {}",
            k + 1,
            freq,
            expected[k]
        );
    }
}
