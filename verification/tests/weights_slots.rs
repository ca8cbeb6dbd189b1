use adh_rs::error::Error;
use adh_rs::slots::{Slots, SLOTS_NUM};
use adh_rs::{Weights, SEGMENTS_WEIGHT_MAX, WEIGHTS_NUM};

#[test]
fn weights_demand_one_value_per_band() {
    assert!(matches!(Weights::new(vec![0; 3]), Err(Error::LengthMismatch)));
    assert!(matches!(Weights::new(vec![0; 33]), Err(Error::LengthMismatch)));
    let w = Weights::new(vec![7; WEIGHTS_NUM]).unwrap();
    assert_eq!(w.len(), WEIGHTS_NUM);
    assert_eq!(w.get(0), 7);
    assert_eq!(w.get(WEIGHTS_NUM - 1), 7);
}

#[test]
fn default_weights_are_full() {
    let w = Weights::default();
    assert_eq!(SEGMENTS_WEIGHT_MAX, 1.0f32.to_bits());
    for i in 0..WEIGHTS_NUM {
        assert_eq!(w.get(i), SEGMENTS_WEIGHT_MAX);
    }
}

#[test]
fn saving_and_recalling_a_slot_round_trips() {
    let mut slots = Slots::default();
    let stored: Vec<u32> = (0..WEIGHTS_NUM as u32).collect();
    slots.save_slot(3, Weights::new(stored.clone()).unwrap());

    let back = slots.recall_slot(3);
    for i in 0..WEIGHTS_NUM {
        assert_eq!(back.get(i), stored[i]);
    }
    // The neighbouring slots still hold the defaults.
    let other = slots.recall_slot(2);
    for i in 0..WEIGHTS_NUM {
        assert_eq!(other.get(i), SEGMENTS_WEIGHT_MAX);
    }
}

#[test]
fn out_of_range_slots_are_inert() {
    let mut slots = Slots::default();
    let marked = Weights::new(vec![5; WEIGHTS_NUM]).unwrap();
    slots.save_slot(SLOTS_NUM, marked);
    // Saving outside the range changed nothing; recalling outside the
    // range yields the defaults.
    let r = slots.recall_slot(SLOTS_NUM + 17);
    for i in 0..WEIGHTS_NUM {
        assert_eq!(r.get(i), SEGMENTS_WEIGHT_MAX);
    }
    for s in 0..SLOTS_NUM {
        assert_eq!(slots.recall_slot(s).get(0), SEGMENTS_WEIGHT_MAX);
    }
}
