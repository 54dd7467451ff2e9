use tychentropy::accumulator::Tychentropy;
use tychentropy::input::TychentropyNewInput;
use tychentropy::natural_datum::NaturalDatum;
use tychentropy::errors::ProcessError;
use tychentropy::sampling::{
    generate_pre_determined_series_of_data_till_entropy_is_full, generate_random_datum,
};

fn fill_with_random_data_till_entropy_is_full(range: u64, tychentropy: &mut Tychentropy) {
    loop {
        let datum = generate_random_datum(range);
        tychentropy.add_natural_datum(datum).unwrap();
        if *tychentropy.get_is_entropy_ready() {
            break;
        }
    }
}

#[test]
fn tychentropy_default_works_01() {
    let default = Tychentropy::default();
    assert_eq!(*default.get_range(), 6);
    assert_eq!(*default.get_target_entropy_bytes(), 32);
    assert_eq!(*default.get_target_entropy_bits(), 256);
    assert_eq!(*default.get_full_bits_in_each_datum(), 2);
}

#[test]
fn new_works_in_normal_condition_01() {
    let range = 3;
    let num_bytes_of_target_entropy = 5;
    let input = TychentropyNewInput::new(range, num_bytes_of_target_entropy).unwrap();
    let tychentropy = Tychentropy::new(input);
    assert_eq!(*tychentropy.get_range(), 3);
    assert_eq!(*tychentropy.get_full_bits_in_each_datum(), 1);
    assert_eq!(*tychentropy.get_target_entropy_bytes(), 5);
    assert_eq!(*tychentropy.get_target_entropy_bits(), 40);
    assert_eq!(*tychentropy.get_sequence(), vec![]);
    assert_eq!(*tychentropy.get_entropy_generating_sequence(), vec![]);
    assert_eq!(*tychentropy.get_generated_entropy_bits(), 0);
    assert_eq!(*tychentropy.get_is_entropy_ready(), false);
    assert_eq!(tychentropy.get_entropy_bit_string().as_str(), "");
    assert_eq!(*tychentropy.get_entropy_bit_vector(), vec![]);
    assert_eq!(*tychentropy.get_entropy_bytes_vector(), vec![]);
    assert_eq!(*tychentropy.get_rng_entropy_bytes_vector(), vec![]);
    assert_eq!(*tychentropy.get_final_entropy_bytes_vector(), vec![]);
}

#[test]
fn add_datum_works_in_normal_condition_01() {
    let range = 6;
    let target_entropy_bytes = 1;
    let input = TychentropyNewInput::new(range, target_entropy_bytes).unwrap();
    let mut tychentropy = Tychentropy::new(input);
    let datum = NaturalDatum::new(range, 5).unwrap();
    tychentropy.add_natural_datum(datum).unwrap();

    assert_eq!(*tychentropy.get_range(), 6);
    assert_eq!(*tychentropy.get_full_bits_in_each_datum(), 2);
    assert_eq!(*tychentropy.get_target_entropy_bytes(), 1);
    assert_eq!(*tychentropy.get_target_entropy_bits(), 8);
    assert_eq!(*tychentropy.get_sequence(), vec![5]);
    assert_eq!(*tychentropy.get_entropy_generating_sequence(), vec![]);
    assert_eq!(*tychentropy.get_generated_entropy_bits(), 0);
    assert_eq!(*tychentropy.get_is_entropy_ready(), false);
    assert_eq!(tychentropy.get_entropy_bit_string().as_str(), "");
    assert_eq!(*tychentropy.get_entropy_bit_vector(), vec![]);
    assert_eq!(*tychentropy.get_entropy_bytes_vector(), vec![]);
    assert_eq!(*tychentropy.get_rng_entropy_bytes_vector(), vec![]);
    assert_eq!(*tychentropy.get_final_entropy_bytes_vector(), vec![]);
}

#[test]
fn add_datum_works_in_normal_condition_02() {
    let range = 6;
    let target_entropy_bytes = 1;
    let input = TychentropyNewInput::new(range, target_entropy_bytes).unwrap();
    let mut tychentropy = Tychentropy::new(input);
    let datum = NaturalDatum::new(range, 4).unwrap();
    let _ = tychentropy.add_natural_datum(datum);

    assert_eq!(*tychentropy.get_range(), 6);
    assert_eq!(*tychentropy.get_full_bits_in_each_datum(), 2);
    assert_eq!(*tychentropy.get_target_entropy_bytes(), 1);
    assert_eq!(*tychentropy.get_target_entropy_bits(), 8);
    assert_eq!(*tychentropy.get_sequence(), vec![4]);
    assert_eq!(*tychentropy.get_entropy_generating_sequence(), vec![3]);
    assert_eq!(*tychentropy.get_generated_entropy_bits(), 2);
    assert_eq!(*tychentropy.get_is_entropy_ready(), false);
    assert_eq!(tychentropy.get_entropy_bit_string().as_str(), "11");
    assert_eq!(*tychentropy.get_entropy_bit_vector(), vec![1, 1]);
    assert_eq!(*tychentropy.get_entropy_bytes_vector(), vec![]);
    assert_eq!(*tychentropy.get_rng_entropy_bytes_vector(), vec![]);
    assert_eq!(*tychentropy.get_final_entropy_bytes_vector(), vec![]);
}

#[test]
fn add_datum_works_in_normal_condition_03() {
    let range = 6;
    let target_entropy_bytes = 1;
    let input = TychentropyNewInput::new(range, target_entropy_bytes).unwrap();
    let mut tychentropy = Tychentropy::new(input);
    let datum = NaturalDatum::new(range, 4).unwrap();
    tychentropy.add_natural_datum(datum).unwrap();

    let datum = NaturalDatum::new(range, 3).unwrap();
    tychentropy.add_natural_datum(datum).unwrap();

    assert_eq!(*tychentropy.get_range(), 6);
    assert_eq!(*tychentropy.get_full_bits_in_each_datum(), 2);
    assert_eq!(*tychentropy.get_target_entropy_bytes(), 1);
    assert_eq!(*tychentropy.get_target_entropy_bits(), 8);
    assert_eq!(*tychentropy.get_sequence(), vec![4, 3]);
    assert_eq!(*tychentropy.get_entropy_generating_sequence(), vec![3, 2]);
    assert_eq!(*tychentropy.get_generated_entropy_bits(), 4);
    assert_eq!(*tychentropy.get_is_entropy_ready(), false);
    assert_eq!(tychentropy.get_entropy_bit_string().as_str(), "1110");
    assert_eq!(*tychentropy.get_entropy_bit_vector(), vec![1, 1, 1, 0]);
    assert_eq!(*tychentropy.get_entropy_bytes_vector(), vec![]);
    assert_eq!(*tychentropy.get_rng_entropy_bytes_vector(), vec![]);
    assert_eq!(*tychentropy.get_final_entropy_bytes_vector(), vec![]);
}

#[test]
fn add_datum_works_in_normal_condition_04() {
    let range = 6;
    let target_entropy_bytes = 1;
    let input = TychentropyNewInput::new(range, target_entropy_bytes).unwrap();
    let mut tychentropy = Tychentropy::new(input);
    let datum = NaturalDatum::new(range, 4).unwrap();
    tychentropy.add_natural_datum(datum).unwrap();

    let datum = NaturalDatum::new(range, 5).unwrap();
    tychentropy.add_natural_datum(datum).unwrap();

    let datum = NaturalDatum::new(range, 3).unwrap();
    tychentropy.add_natural_datum(datum).unwrap();

    let datum = NaturalDatum::new(range, 6).unwrap();
    tychentropy.add_natural_datum(datum).unwrap();

    let datum = NaturalDatum::new(range, 2).unwrap();
    tychentropy.add_natural_datum(datum).unwrap();

    assert_eq!(*tychentropy.get_range(), 6);
    assert_eq!(*tychentropy.get_full_bits_in_each_datum(), 2);
    assert_eq!(*tychentropy.get_target_entropy_bytes(), 1);
    assert_eq!(*tychentropy.get_target_entropy_bits(), 8);
    assert_eq!(*tychentropy.get_sequence(), vec![4, 5, 3, 6, 2]);
    assert_eq!(*tychentropy.get_entropy_generating_sequence(), vec![3, 2, 1]);
    assert_eq!(*tychentropy.get_generated_entropy_bits(), 6);
    assert_eq!(*tychentropy.get_is_entropy_ready(), false);
    assert_eq!(tychentropy.get_entropy_bit_string().as_str(), "111001");
    assert_eq!(*tychentropy.get_entropy_bit_vector(), vec![1, 1, 1, 0, 0, 1]);
    assert_eq!(*tychentropy.get_entropy_bytes_vector(), vec![]);
    assert_eq!(*tychentropy.get_rng_entropy_bytes_vector(), vec![]);
    assert_eq!(*tychentropy.get_final_entropy_bytes_vector(), vec![]);
}

#[test]
fn add_datum_works_in_normal_condition_05() {
    let range = 6;
    let target_entropy_bytes = 1;
    let input = TychentropyNewInput::new(range, target_entropy_bytes).unwrap();
    let mut tychentropy = Tychentropy::new(input);
    let datum = NaturalDatum::new(range, 4).unwrap();
    tychentropy.add_natural_datum(datum).unwrap();

    let datum = NaturalDatum::new(range, 5).unwrap();
    tychentropy.add_natural_datum(datum).unwrap();

    let datum = NaturalDatum::new(range, 3).unwrap();
    tychentropy.add_natural_datum(datum).unwrap();

    let datum = NaturalDatum::new(range, 6).unwrap();
    tychentropy.add_natural_datum(datum).unwrap();

    let datum = NaturalDatum::new(range, 2).unwrap();
    tychentropy.add_natural_datum(datum).unwrap();

    let datum = NaturalDatum::new(range, 1).unwrap();
    tychentropy.add_natural_datum(datum).unwrap();

    assert_eq!(*tychentropy.get_range(), 6);
    assert_eq!(*tychentropy.get_full_bits_in_each_datum(), 2);
    assert_eq!(*tychentropy.get_target_entropy_bytes(), 1);
    assert_eq!(*tychentropy.get_target_entropy_bits(), 8);
    assert_eq!(*tychentropy.get_sequence(), vec![4, 5, 3, 6, 2, 1]);
    assert_eq!(*tychentropy.get_entropy_generating_sequence(), vec![3, 2, 1, 0]);
    assert_eq!(*tychentropy.get_generated_entropy_bits(), 8);
    assert_eq!(*tychentropy.get_is_entropy_ready(), true);
    assert_eq!(tychentropy.get_entropy_bit_string().as_str(), "11100100");
    assert_eq!(
        *tychentropy.get_entropy_bit_vector(),
        vec![1, 1, 1, 0, 0, 1, 0, 0]
    );
    assert_eq!(tychentropy.get_entropy_bytes_vector().len(), 1);
    assert_eq!(*tychentropy.get_rng_entropy_bytes_vector(), vec![]);
    assert_eq!(tychentropy.get_final_entropy_bytes_vector().len(), 1);
}

#[test]
fn add_datum_works_in_normal_condition_06() {
    let range = 6;
    let target_entropy_bytes = 1;
    let input = TychentropyNewInput::new(range, target_entropy_bytes).unwrap();
    let mut tychentropy = Tychentropy::new(input);

    fill_with_random_data_till_entropy_is_full(range, &mut tychentropy);

    assert_eq!(*tychentropy.get_range(), 6);
    assert_eq!(*tychentropy.get_full_bits_in_each_datum(), 2);
    assert_eq!(*tychentropy.get_target_entropy_bytes(), 1);
    assert_eq!(*tychentropy.get_target_entropy_bits(), 8);
    assert_eq!(tychentropy.get_entropy_generating_sequence().len(), 4);
    assert_eq!(*tychentropy.get_generated_entropy_bits(), 8);
    assert_eq!(*tychentropy.get_is_entropy_ready(), true);
    assert_eq!(tychentropy.get_entropy_bit_string().len(), 8);
    assert_eq!(tychentropy.get_entropy_bit_vector().len(), 8);
    assert_eq!(tychentropy.get_entropy_bytes_vector().len(), 1);
    assert_eq!(*tychentropy.get_rng_entropy_bytes_vector(), vec![]);
    assert_eq!(tychentropy.get_final_entropy_bytes_vector().len(), 1);
}

#[test]
fn add_datum_works_in_normal_condition_07() {
    let range = 6;
    let target_entropy_bytes = 1;
    let input = TychentropyNewInput::new(range, target_entropy_bytes).unwrap();
    let mut tychentropy = Tychentropy::new(input);
    let sequence = vec![1, 4, 6, 2, 3, 4, 1, 4, 6, 4, 2];

    generate_pre_determined_series_of_data_till_entropy_is_full(
        range,
        sequence,
        &mut tychentropy,
    );

    assert_eq!(*tychentropy.get_range(), 6);
    assert_eq!(*tychentropy.get_full_bits_in_each_datum(), 2);
    assert_eq!(*tychentropy.get_target_entropy_bytes(), 1);
    assert_eq!(*tychentropy.get_target_entropy_bits(), 8);
    assert_eq!(*tychentropy.get_sequence(), vec![1, 4, 6, 2, 3]);
    assert_eq!(*tychentropy.get_entropy_generating_sequence(), vec![0, 3, 1, 2]);
    assert_eq!(*tychentropy.get_generated_entropy_bits(), 8);
    assert_eq!(*tychentropy.get_is_entropy_ready(), true);
    assert_eq!(tychentropy.get_entropy_bit_string().as_str(), "00110110");
    assert_eq!(
        *tychentropy.get_entropy_bit_vector(),
        vec![0, 0, 1, 1, 0, 1, 1, 0]
    );
    assert_eq!(tychentropy.get_entropy_bytes_vector().len(), 1);
    assert_eq!(*tychentropy.get_rng_entropy_bytes_vector(), vec![]);
    assert_eq!(tychentropy.get_final_entropy_bytes_vector().len(), 1);
}

#[test]
fn add_datum_works_in_normal_condition_08() {
    let range = 2048;
    let target_entropy_bytes = 1024;
    let input = TychentropyNewInput::new(range, target_entropy_bytes).unwrap();
    let mut tychentropy = Tychentropy::new(input);

    fill_with_random_data_till_entropy_is_full(range, &mut tychentropy);

    assert_eq!(*tychentropy.get_range(), 2048);
    assert_eq!(*tychentropy.get_full_bits_in_each_datum(), 11);
    assert_eq!(*tychentropy.get_target_entropy_bytes(), 1024);
    assert_eq!(*tychentropy.get_target_entropy_bits(), 8192);
    // every datum has 11 bits and that's not a multiple of 8, so the counter
    // legitimately overshoots the target
    assert_eq!(*tychentropy.get_generated_entropy_bits(), 8195);
    assert_eq!(*tychentropy.get_is_entropy_ready(), true);
    assert_eq!(tychentropy.get_entropy_bit_string().len(), 8192);
    assert_eq!(tychentropy.get_entropy_bit_vector().len(), 8192);
    assert_eq!(tychentropy.get_entropy_bytes_vector().len(), 1024);
    assert_eq!(*tychentropy.get_rng_entropy_bytes_vector(), vec![]);
    assert_eq!(tychentropy.get_final_entropy_bytes_vector().len(), 1024);
}

#[test]
fn add_datum_works_in_normal_condition_09() {
    let range = 632;
    let target_entropy_bytes = 893;
    let input = TychentropyNewInput::new(range, target_entropy_bytes).unwrap();
    let mut tychentropy = Tychentropy::new(input);

    fill_with_random_data_till_entropy_is_full(range, &mut tychentropy);

    assert_eq!(*tychentropy.get_range(), 632);
    assert_eq!(*tychentropy.get_full_bits_in_each_datum(), 9);
    assert_eq!(*tychentropy.get_target_entropy_bytes(), 893);
    assert_eq!(*tychentropy.get_target_entropy_bits(), 7144);
    // every datum has 9 bits and that's not a multiple of 8, so the counter
    // legitimately overshoots the target
    assert_eq!(*tychentropy.get_generated_entropy_bits(), 7146);
    assert_eq!(*tychentropy.get_is_entropy_ready(), true);
    assert_eq!(tychentropy.get_entropy_bit_string().len(), 7144);
    assert_eq!(tychentropy.get_entropy_bit_vector().len(), 7144);
    assert_eq!(tychentropy.get_entropy_bytes_vector().len(), 893);
    assert_eq!(*tychentropy.get_rng_entropy_bytes_vector(), vec![]);
    assert_eq!(tychentropy.get_final_entropy_bytes_vector().len(), 893);
}

#[test]
fn add_datum_emits_error_for_out_of_range_datum_01() {
    let range = 6;
    let target_entropy_bytes = 1;
    let input = TychentropyNewInput::new(range, target_entropy_bytes).unwrap();
    let mut tychentropy = Tychentropy::new(input);
    let datum = NaturalDatum::new(8, 7).unwrap();
    let result = tychentropy.add_natural_datum(datum);
    assert!(result.is_err());
    assert_eq!(
        result.err().unwrap(),
        ProcessError::NaturalDatumOutOfRange { value: 7, range: 6 }
    )
}

#[test]
fn create_entropy_bytes_works_in_normal_condition_01() {
    let range = 6;
    let target_entropy_bytes = 1;
    let input = TychentropyNewInput::new(range, target_entropy_bytes).unwrap();
    let mut tychentropy = Tychentropy::new(input);
    let sequence = vec![1, 4, 6, 2, 3, 4, 1, 4, 6, 4, 2];

    generate_pre_determined_series_of_data_till_entropy_is_full(
        range,
        sequence,
        &mut tychentropy,
    );

    assert_eq!(*tychentropy.get_range(), 6);
    assert_eq!(*tychentropy.get_full_bits_in_each_datum(), 2);
    assert_eq!(*tychentropy.get_target_entropy_bytes(), 1);
    assert_eq!(*tychentropy.get_target_entropy_bits(), 8);
    assert_eq!(*tychentropy.get_sequence(), vec![1, 4, 6, 2, 3]);
    assert_eq!(*tychentropy.get_entropy_generating_sequence(), vec![0, 3, 1, 2]);
    assert_eq!(*tychentropy.get_generated_entropy_bits(), 8);
    assert_eq!(*tychentropy.get_is_entropy_ready(), true);
    assert_eq!(tychentropy.get_entropy_bit_string().as_str(), "00110110");
    assert_eq!(
        *tychentropy.get_entropy_bit_vector(),
        vec![0, 0, 1, 1, 0, 1, 1, 0]
    );
    assert_eq!(*tychentropy.get_entropy_bytes_vector(), vec![108]);
    assert_eq!(*tychentropy.get_rng_entropy_bytes_vector(), vec![]);
    assert_eq!(*tychentropy.get_final_entropy_bytes_vector(), vec![108]);
}

#[test]
fn put_data_from_another_tychentropy_works_01() {
    let range = 1024;
    let target_entropy_bytes = 32;
    let input = TychentropyNewInput::new(range, target_entropy_bytes).unwrap();
    let mut tychentropy = Tychentropy::new(input);

    let range = 32;
    let target_entropy_bytes = 42;
    let input = TychentropyNewInput::new(range, target_entropy_bytes).unwrap();
    let tychentropy_rep = Tychentropy::new(input);

    tychentropy.put_data_from_another_tychentropy(tychentropy_rep);
    assert_eq!(*tychentropy.get_range(), 32);
    assert_eq!(*tychentropy.get_full_bits_in_each_datum(), 5);
    assert_eq!(*tychentropy.get_target_entropy_bytes(), 42);
    assert_eq!(*tychentropy.get_target_entropy_bits(), 336);
}

#[test]
fn put_data_from_another_tychentropy_works_02() {
    let range = 8;
    let target_entropy_bytes = 3;
    let input = TychentropyNewInput::new(range, target_entropy_bytes).unwrap();
    let mut tychentropy = Tychentropy::new(input);
    let sequence = vec![1, 1, 1, 1, 1, 1, 1, 1];

    generate_pre_determined_series_of_data_till_entropy_is_full(
        range,
        sequence,
        &mut tychentropy,
    );

    tychentropy.mix_with_rng().unwrap();

    let range = 6;
    let target_entropy_bytes = 1;
    let input = TychentropyNewInput::new(range, target_entropy_bytes).unwrap();
    let mut tychentropy_rep = Tychentropy::new(input);
    let sequence = vec![1, 4, 6, 2, 3, 4, 1, 4, 6, 4, 2];

    generate_pre_determined_series_of_data_till_entropy_is_full(
        range,
        sequence,
        &mut tychentropy_rep,
    );

    tychentropy_rep.mix_with_rng().unwrap();

    tychentropy.put_data_from_another_tychentropy(tychentropy_rep);

    assert_eq!(*tychentropy.get_range(), 6);
    assert_eq!(*tychentropy.get_full_bits_in_each_datum(), 2);
    assert_eq!(*tychentropy.get_target_entropy_bytes(), 1);
    assert_eq!(*tychentropy.get_target_entropy_bits(), 8);
    assert_eq!(*tychentropy.get_sequence(), vec![1, 4, 6, 2, 3]);
    assert_eq!(*tychentropy.get_entropy_generating_sequence(), vec![0, 3, 1, 2]);
    assert_eq!(*tychentropy.get_generated_entropy_bits(), 8);
    assert_eq!(*tychentropy.get_is_entropy_ready(), true);
    assert_eq!(tychentropy.get_entropy_bit_string().as_str(), "00110110");
    assert_eq!(
        *tychentropy.get_entropy_bit_vector(),
        vec![0, 0, 1, 1, 0, 1, 1, 0]
    );
    assert_eq!(*tychentropy.get_entropy_bytes_vector(), vec![108]);
    assert_eq!(tychentropy.get_rng_entropy_bytes_vector().len(), 1);
    assert_eq!(tychentropy.get_final_entropy_bytes_vector().len(), 1);
    assert_ne!(
        *tychentropy.get_entropy_bytes_vector(),
        *tychentropy.get_rng_entropy_bytes_vector()
    );
    assert_ne!(
        *tychentropy.get_entropy_bytes_vector(),
        *tychentropy.get_final_entropy_bytes_vector()
    );
    assert_ne!(
        *tychentropy.get_rng_entropy_bytes_vector(),
        *tychentropy.get_final_entropy_bytes_vector()
    );
}

#[test]
fn reset_works_01() {
    let range = 6;
    let target_entropy_bytes = 1;
    let input = TychentropyNewInput::new(range, target_entropy_bytes).unwrap();
    let mut tychentropy = Tychentropy::new(input);
    let sequence = vec![1, 4, 6, 2, 3, 4, 1, 4, 6, 4, 2];

    generate_pre_determined_series_of_data_till_entropy_is_full(
        range,
        sequence,
        &mut tychentropy,
    );

    tychentropy.mix_with_rng().unwrap();

    tychentropy.reset_data();

    assert_eq!(*tychentropy.get_range(), 6);
    assert_eq!(*tychentropy.get_full_bits_in_each_datum(), 2);
    assert_eq!(*tychentropy.get_target_entropy_bytes(), 1);
    assert_eq!(*tychentropy.get_target_entropy_bits(), 8);
    assert_eq!(*tychentropy.get_sequence(), vec![]);
    assert_eq!(*tychentropy.get_entropy_generating_sequence(), vec![]);
    assert_eq!(*tychentropy.get_generated_entropy_bits(), 0);
    assert_eq!(*tychentropy.get_is_entropy_ready(), false);
    assert_eq!(tychentropy.get_entropy_bit_string().as_str(), "");
    assert_eq!(*tychentropy.get_entropy_bit_vector(), vec![]);
    assert_eq!(*tychentropy.get_entropy_bytes_vector(), vec![]);
    assert_eq!(*tychentropy.get_rng_entropy_bytes_vector(), vec![]);
    assert_eq!(*tychentropy.get_final_entropy_bytes_vector(), vec![]);
}
