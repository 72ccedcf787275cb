use savgol_rs::edges::EdgeWindow;
use savgol_rs::input::FilterPlan;
use savgol_rs::kernel::{KernelPlan, KernelSystem};
use savgol_rs::{SavGolError, SavGolInput};

const SIGNAL: &[i32] = &[1, 5, 3, 4, 7, 2, 4, 6];

fn request(window_length: usize, poly_order: usize, derivative: usize) -> SavGolInput<'static, i32> {
    SavGolInput {
        data: SIGNAL,
        window_length,
        poly_order,
        derivative,
    }
}

#[test]
fn check_accepts_admissible_request() {
    assert_eq!(request(3, 1, 0).check(), Ok(()));
    assert_eq!(request(7, 6, 9).check(), Ok(()));
    assert_eq!(request(1, 0, 0).check(), Ok(()));
}

#[test]
fn oversized_window_is_rejected() {
    assert_eq!(request(9, 1, 0).check(), Err(SavGolError::WindowTooLarge));
    assert_eq!(request(9, 1, 0).plan(), Err(SavGolError::WindowTooLarge));
    assert_eq!(request(usize::MAX, 0, 0).plan(), Err(SavGolError::WindowTooLarge));
}

#[test]
fn oversized_window_wins_over_every_other_fault() {
    // Even, and with too high an order as well: the size is reported.
    assert_eq!(request(10, 10, 0).check(), Err(SavGolError::WindowTooLarge));
    assert_eq!(request(10, 10, 0).plan(), Err(SavGolError::WindowTooLarge));
    assert_eq!(request(11, 20, 3).plan(), Err(SavGolError::WindowTooLarge));
}

#[test]
fn even_window_is_rejected() {
    for window_length in [0usize, 2, 4, 6, 8] {
        assert_eq!(
            request(window_length, 1, 0).check(),
            Err(SavGolError::EvenWindowUnsupported)
        );
        assert_eq!(
            request(window_length, 1, 0).plan(),
            Err(SavGolError::EvenWindowUnsupported)
        );
    }
}

#[test]
fn even_window_wins_over_high_order() {
    assert_eq!(request(4, 4, 0).plan(), Err(SavGolError::EvenWindowUnsupported));
    assert_eq!(request(4, 9, 2).check(), Err(SavGolError::EvenWindowUnsupported));
}

#[test]
fn order_not_below_window_is_rejected() {
    assert_eq!(request(3, 3, 0).check(), Err(SavGolError::InvalidParameter));
    assert_eq!(request(3, 3, 0).plan(), Err(SavGolError::InvalidParameter));
    assert_eq!(request(5, 17, 1).plan(), Err(SavGolError::InvalidParameter));
}

#[test]
fn empty_signal_admits_no_window() {
    let empty: &[i32] = &[];
    let zero = SavGolInput {
        data: empty,
        window_length: 0,
        poly_order: 0,
        derivative: 0,
    };
    assert_eq!(zero.plan(), Err(SavGolError::EvenWindowUnsupported));
    let one = SavGolInput {
        data: empty,
        window_length: 1,
        poly_order: 0,
        derivative: 0,
    };
    assert_eq!(one.plan(), Err(SavGolError::WindowTooLarge));
}

#[test]
fn plan_of_the_smallest_smoothing_request() {
    let plan = request(3, 1, 0).plan();
    assert_eq!(
        plan,
        Ok(FilterPlan {
            kernel: KernelPlan::Solve {
                system: KernelSystem {
                    window_length: 3,
                    rows: 2,
                    center_twice: 2,
                    target_row: 0,
                },
            },
            leading: EdgeWindow {
                window_start: 0,
                window_stop: 3,
                interp_start: 0,
                interp_stop: 1,
            },
            trailing: EdgeWindow {
                window_start: 5,
                window_stop: 8,
                interp_start: 7,
                interp_stop: 8,
            },
        })
    );
}

#[test]
fn plan_with_derivative_beyond_order_has_zero_kernel() {
    let plan = request(5, 2, 3).plan().unwrap();
    assert_eq!(plan.kernel, KernelPlan::Zero { len: 5 });
    assert_eq!(
        plan.leading,
        EdgeWindow {
            window_start: 0,
            window_stop: 5,
            interp_start: 0,
            interp_stop: 2,
        }
    );
    assert_eq!(
        plan.trailing,
        EdgeWindow {
            window_start: 3,
            window_stop: 8,
            interp_start: 6,
            interp_stop: 8,
        }
    );
}

#[test]
fn plan_for_window_as_long_as_the_signal() {
    let data: &[i32] = &[4, 8, 15, 16, 23, 42, 7];
    let input = SavGolInput {
        data,
        window_length: 7,
        poly_order: 2,
        derivative: 1,
    };
    let plan = input.plan().unwrap();
    assert_eq!(plan.leading.window_start, 0);
    assert_eq!(plan.leading.window_stop, 7);
    assert_eq!(plan.leading.interp_stop, 3);
    assert_eq!(plan.trailing.window_start, 0);
    assert_eq!(plan.trailing.window_stop, 7);
    assert_eq!(plan.trailing.interp_start, 4);
    assert_eq!(plan.trailing.interp_stop, 7);
}

#[test]
fn plan_is_the_same_for_the_same_request() {
    assert_eq!(request(5, 3, 1).plan(), request(5, 3, 1).plan());
    assert_eq!(request(6, 3, 1).plan(), request(6, 3, 1).plan());
}

#[test]
fn plan_does_not_depend_on_sample_values() {
    let other: &[i32] = &[0, 0, 0, 9, 9, 9, -1, -1];
    let input = SavGolInput {
        data: other,
        window_length: 5,
        poly_order: 3,
        derivative: 1,
    };
    assert_eq!(input.plan(), request(5, 3, 1).plan());
}

#[test]
fn messages_name_the_fault() {
    assert_eq!(
        SavGolError::InvalidParameter.message(),
        "poly_order must be less than window_length."
    );
    assert_eq!(
        SavGolError::WindowTooLarge.message(),
        "window_length must be less than or equal to the size of the input data"
    );
    assert_eq!(
        SavGolError::EvenWindowUnsupported.message(),
        "window_length must be odd"
    );
}

#[test]
fn messages_carry_the_detail() {
    let conversion = SavGolError::ElementConversion {
        detail: String::from("not a number"),
    };
    assert_eq!(conversion.message(), "not a number");
    let solve = SavGolError::LeastSquaresSolve {
        detail: String::from("no solution"),
    };
    assert_eq!(solve.message(), "no solution");
    let fit = SavGolError::PolynomialFit {
        detail: String::from("too few points"),
    };
    assert_eq!(fit.message(), "too few points");
}
