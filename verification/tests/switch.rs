use softnpu::switch::{
    cpu_port_output, external_packet_egress, external_port_frame, internal_packet_egress,
    pipeline_port, sidecar_frame, CpuPortOutput, Egress,
};

#[test]
fn scrimlet_packets_get_a_sidecar_header() {
    let mut msg: Vec<u8> = (0u8..14).collect();
    msg[12] = 0x86;
    msg[13] = 0xdd;
    msg.extend_from_slice(&[0xaa, 0xbb, 0xcc]);
    let n = msg.len();
    let frame = sidecar_frame(&msg, n, 2, 64);
    assert_eq!(frame.len(), 64);
    assert_eq!(&frame[..12], &msg[..12]);
    assert_eq!(&frame[12..14], &[0x09, 0x01]);
    assert_eq!(&frame[14..19], &[0, 3, 3, 0x86, 0xdd]);
    assert!(frame[19..35].iter().all(|b| *b == 0));
    assert_eq!(&frame[35..38], &[0xaa, 0xbb, 0xcc]);
    assert!(frame[38..].iter().all(|b| *b == 0));
}

#[test]
fn cpu_port_packets_lose_their_sidecar_header() {
    let mut header: Vec<u8> = vec![1; 12];
    header.extend_from_slice(&[0x09, 0x01]);
    header.extend_from_slice(&[0, 1, 2, 0x08, 0x00]);
    header.extend_from_slice(&[0; 16]);
    header.extend_from_slice(&[0x45, 0x00]);
    match cpu_port_output(&header, &[7, 7], 4) {
        CpuPortOutput::Send { index, frame } => {
            assert_eq!(index, 1);
            let mut expected = vec![1; 12];
            expected.extend_from_slice(&[0x08, 0x00, 0x45, 0x00, 7, 7]);
            assert_eq!(frame, expected);
        }
        CpuPortOutput::Drop => panic!("dropped"),
    }
    header[16] = 0;
    assert!(matches!(cpu_port_output(&header, &[], 4), CpuPortOutput::Drop));
}

#[test]
fn processed_packets_leave_by_their_port() {
    assert_eq!(external_packet_egress(0), Egress::CpuPort);
    assert_eq!(external_packet_egress(3), Egress::External(2));
    assert_eq!(internal_packet_egress(1), 0);
    assert_eq!(pipeline_port(0), 1);
    assert_eq!(pipeline_port(65534), 65535);
    assert_eq!(pipeline_port(65535), 0);
    assert_eq!(external_port_frame(&[1, 2], &[3]), vec![1, 2, 3]);
}

#[test]
fn the_cpu_port_undoes_the_sidecar_header() {
    let mut msg: Vec<u8> = (20u8..34).collect();
    msg.extend_from_slice(&[0x60, 1, 2, 3]);
    let n = msg.len();
    let frame = sidecar_frame(&msg, n, 4, 48);
    match cpu_port_output(&frame, &[], 8) {
        CpuPortOutput::Send { index, frame: out } => {
            assert_eq!(index, 4);
            assert_eq!(&out[..n], &msg[..]);
            assert_eq!(out.len(), n + (48 - (n - 14 + 35)));
            assert!(out[n..].iter().all(|b| *b == 0));
        }
        CpuPortOutput::Drop => panic!("dropped"),
    }
}
