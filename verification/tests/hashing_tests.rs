use cgminer_gpu_btc_core::device::GpuDevice;
use cgminer_gpu_btc_core::hashing::{hash_header_with_nonce, prepare_input_data, u32_le_bytes};
use cgminer_gpu_btc_core::types::Work;

fn hex(b: &[u8]) -> String {
    b.iter().map(|x| format!("{:02x}", x)).collect()
}

fn work_with_header(header: Vec<u8>) -> Work {
    Work { id: 1, work_id: 2, job_id: "j".to_string(), header, target: (0..32).collect(), difficulty_bits: 0 }
}

#[test]
fn sha256d_of_zero_header_with_nonce() {
    let header = vec![0u8; 80];
    let h = hash_header_with_nonce(&header, 0x12345678);
    assert_eq!(hex(&h), "d1389d6f60fc6dba2f35bbd119444adb6443080bcba8be93b290d62ff72b47ba");
}

#[test]
fn sha256d_replaces_existing_nonce_bytes() {
    let header: Vec<u8> = (0..80).collect();
    let h = hash_header_with_nonce(&header, 1);
    assert_eq!(hex(&h), "60928e9b3e2693a23c6ee1e97056d9428c1558bf4f9c8ef675b53d29c7fca5fc");
    let w = work_with_header(header.clone());
    assert_eq!(GpuDevice::calculate_hash_for_work(&w, 1), h);
}

#[test]
fn le_bytes_roundtrip() {
    for n in [0u32, 1, 255, 256, 0x12345678, u32::MAX] {
        let b = u32_le_bytes(n);
        assert_eq!(b, n.to_le_bytes().to_vec());
        assert_eq!(u32::from_le_bytes([b[0], b[1], b[2], b[3]]), n);
    }
}

#[test]
fn kernel_input_layout() {
    let header: Vec<u8> = (100..180).collect();
    let w = work_with_header(header.clone());
    let data = prepare_input_data(&w, 0x01020304, 524288);
    assert_eq!(data.len(), 120);
    assert_eq!(&data[0..80], &header[..]);
    assert_eq!(&data[80..112], &(0..32).collect::<Vec<u8>>()[..]);
    assert_eq!(&data[112..116], &[4, 3, 2, 1]);
    assert_eq!(u32::from_le_bytes([data[116], data[117], data[118], data[119]]), 524288);
}
