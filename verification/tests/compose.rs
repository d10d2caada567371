use transducers::{
    compose, compose_trans, transduce, Func, Identity, Mapping, StepFn, Transducer,
};

struct Double;

impl Func for Double {
    type In = i32;
    type Out = i32;

    fn eval(&self, x: i32) -> i32 {
        x * 2
    }

    fn call(&self, x: i32) -> i32 {
        x * 2
    }
}

struct PlusTwo;

impl Func for PlusTwo {
    type In = i32;
    type Out = i32;

    fn eval(&self, x: i32) -> i32 {
        x + 2
    }

    fn call(&self, x: i32) -> i32 {
        x + 2
    }
}

struct Square;

impl Func for Square {
    type In = i32;
    type Out = i32;

    fn eval(&self, x: i32) -> i32 {
        x * x
    }

    fn call(&self, x: i32) -> i32 {
        x * x
    }
}

struct Ident;

impl Func for Ident {
    type In = i32;
    type Out = i32;

    fn eval(&self, x: i32) -> i32 {
        x
    }

    fn call(&self, x: i32) -> i32 {
        x
    }
}

struct UnwrapOrZero;

impl Func for UnwrapOrZero {
    type In = Option<i32>;
    type Out = i32;

    fn eval(&self, x: Option<i32>) -> i32 {
        if let Some(n) = x {
            n
        } else {
            0
        }
    }

    fn call(&self, x: Option<i32>) -> i32 {
        if let Some(n) = x {
            n
        } else {
            0
        }
    }
}

struct SomeIfSmall;

impl Func for SomeIfSmall {
    type In = i32;
    type Out = Option<i32>;

    fn eval(&self, x: i32) -> Option<i32> {
        if x < 100 {
            Some(x)
        } else {
            None
        }
    }

    fn call(&self, x: i32) -> Option<i32> {
        if x < 100 {
            Some(x)
        } else {
            None
        }
    }
}

struct AddStep;

impl StepFn for AddStep {
    type Acc = i32;
    type Elem = i32;

    fn eval(&self, r: i32, t: i32) -> i32 {
        r + t
    }

    fn step(&self, r: i32, t: i32) -> i32 {
        r + t
    }
}

#[test]
fn compose_is_associative() {
    let f = Double;
    let g = PlusTwo;
    let h = Square;
    assert_eq!(compose(compose(f, g), h).call(42), 3532);
    let f = Double;
    let g = PlusTwo;
    let h = Square;
    assert_eq!(compose(f, compose(g, h)).call(42), 3532);
}

#[test]
fn compose_typechecks() {
    let f = UnwrapOrZero;
    let g = SomeIfSmall;
    let h = compose(f, g);
    assert_eq!(h.call(42), 42);
    assert_eq!(h.call(65535), 0);
}

#[test]
fn compose_with_id_is_id() {
    let id = Ident;
    let ff = Double;
    assert_eq!(ff.call(42), compose(id, ff).call(42));
    let id = Ident;
    let ff = Double;
    assert_eq!(ff.call(42), compose(ff, id).call(42));
}

#[test]
fn compose_trans_is_associative() {
    let f = Double;
    let g = PlusTwo;
    let h = Square;
    let step = AddStep;
    let comp_left = compose_trans(
        compose_trans(Mapping::new(&h), Mapping::new(&g)),
        Mapping::new(&f),
    );
    assert_eq!(comp_left.apply(step).step(0, 42), 3532);
    let step = AddStep;
    let comp_right = compose_trans(
        Mapping::new(&h),
        compose_trans(Mapping::new(&g), Mapping::new(&f)),
    );
    assert_eq!(comp_right.apply(step).step(0, 42), 3532);
}

#[test]
fn compose_trans_typechecks() {
    let f = UnwrapOrZero;
    let g = SomeIfSmall;

    // Note the 'reversed' composition order, to map `f after g`, we compose
    // as `mapping(g) after mapping(f)`.
    let comp = compose_trans(Mapping::new(&g), Mapping::new(&f));
    let step = AddStep;
    assert_eq!(comp.apply(step).step(0, 42), 42);
    let step = AddStep;
    assert_eq!(comp.apply(step).step(0, 65535), 0);
}

#[test]
fn mapping_with_composed_function() {
    let f = Double;
    let g = PlusTwo;
    let fg = compose(f, g);
    let m = Mapping::new(&fg);
    let v = vec![1i32, 2, 3];
    let w = transduce(v, m);
    assert_eq!(w, vec![6i32, 8, 10]);
}

#[test]
fn compose_trans_with_id_is_id() {
    let f = Double;
    let step = AddStep;
    let comp_left = compose_trans(Identity::new(), Mapping::new(&f));
    assert_eq!(f.call(42), comp_left.apply(step).step(0, 42));
    let step = AddStep;
    let comp_right = compose_trans(Mapping::new(&f), Identity::new());
    assert_eq!(f.call(42), comp_right.apply(step).step(0, 42));
}
