use globe::gradient::{create_gradient, gradient_bytes};

#[test]
fn gradient_fixed_entries() {
    for alpha in [0u8, 100, 255] {
        let g = create_gradient(alpha);
        assert_eq!(g[0], [200, 200, 200, 255]);
        assert_eq!(g[128], [255, 255, 255, 255]);
    }
}

#[test]
fn gradient_blue_half() {
    let g = create_gradient(77);
    assert_eq!(g[1], [2, 2, 255, 77]);
    assert_eq!(g[64], [128, 128, 255, 77]);
    assert_eq!(g[127], [254, 254, 255, 77]);
}

#[test]
fn gradient_red_half() {
    let g = create_gradient(77);
    assert_eq!(g[129], [255, 254, 254, 77]);
    assert_eq!(g[200], [255, 112, 112, 77]);
    assert_eq!(g[255], [255, 2, 2, 77]);
}

#[test]
fn gradient_halves_mirror() {
    let g = create_gradient(9);
    for i in 1..=127usize {
        assert_eq!(g[256 - i][1], g[i][0]);
        assert_eq!(g[256 - i][2], g[i][1]);
        assert_eq!(g[256 - i][3], g[i][3]);
    }
}

#[test]
fn gradient_halves_are_monotone() {
    let g = create_gradient(9);
    for i in 1..127usize {
        assert!(g[i][0] < g[i + 1][0]);
    }
    for i in 129..255usize {
        assert!(g[i][1] > g[i + 1][1]);
    }
}

#[test]
fn gradient_bytes_lay_entries_out_in_order() {
    let g = create_gradient(200);
    let b = gradient_bytes(&g);
    assert_eq!(b.len(), 1024);
    assert_eq!(&b[0..4], &[200, 200, 200, 255]);
    assert_eq!(&b[4..8], &[2, 2, 255, 200]);
    assert_eq!(&b[800..804], &[255, 112, 112, 200]);
    assert_eq!(&b[1020..1024], &[255, 2, 2, 200]);
    for k in 0..1024 {
        assert_eq!(b[k], g[k / 4][k % 4]);
    }
}
