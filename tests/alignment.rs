use esp_periph::alignment::{read_words, write_words, ALIGN_SIZE};

#[test]
fn write_words_packs_bytes_in_buffer_order() {
    let mut regs = vec![0u32; 4];
    write_words(&mut regs, &[0x01, 0x02, 0x03, 0x04, 0xaa, 0xbb, 0xcc, 0xdd], 4);
    assert_eq!(regs, vec![0x0403_0201, 0xddcc_bbaa, 0, 0]);
}

#[test]
fn write_words_leaves_registers_past_the_data() {
    let mut regs = vec![7u32, 8, 9, 10];
    write_words(&mut regs, &[0xff, 0, 0, 0], 4);
    assert_eq!(regs, vec![0xff, 8, 9, 10]);
}

#[test]
fn write_words_with_empty_data_changes_nothing() {
    let mut regs = vec![5u32, 6];
    write_words(&mut regs, &[], 2);
    assert_eq!(regs, vec![5, 6]);
}

#[test]
fn read_words_unpacks_in_buffer_order() {
    let regs = vec![0x0403_0201u32, 0x0807_0605];
    let mut out = [0u8; 8];
    read_words(&regs, &mut out, 2);
    assert_eq!(out, [1, 2, 3, 4, 5, 6, 7, 8]);
}

#[test]
fn write_then_read_round_trips_for_every_word_count() {
    for words in 0..=8usize {
        let data: Vec<u8> = (0..words * ALIGN_SIZE).map(|i| (i * 37 + 11) as u8).collect();
        let mut regs = vec![0xdead_beefu32; 8];
        write_words(&mut regs, &data, 8);
        let mut out = vec![0u8; data.len()];
        read_words(&regs, &mut out, 8);
        assert_eq!(out.len(), data.len());
        assert_eq!(out, data);
    }
}
