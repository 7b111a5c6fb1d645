use core::marker::PhantomData;
use object_chain::Chain;
use object_chain::ChainElement;
use object_chain::Link;

struct Generic<'a, T> {
    field: PhantomData<&'a T>,
}

#[allow(dead_code)]
struct CompileTest {
    chain1: Chain<u8>,
    generic_in_chain: Chain<Generic<'static, u32>>,
    chain: Link<u32, Link<u16, Chain<u8>>>,
}

fn f(_obj_chain: &Link<u32, Link<u16, Chain<u8>>>) {}

#[test]
fn test() {
    let test = CompileTest {
        chain1: Chain::new(0),
        generic_in_chain: Chain::new(Generic { field: PhantomData }),
        chain: Chain::new(0u8).append(1u16).append(2u32),
    };

    f(&test.chain);
}

#[test]
fn test_count() {
    assert_eq!(1, Chain::new(0).len());
    assert_eq!(3, Chain::new(0u8).append(1u16).append(2u32).len());
}

// 1: First, we need to implement a common interface for all of our objects' types
trait AsU8 {
    fn as_u8(&self) -> u8;
}

impl AsU8 for u8 {
    fn as_u8(&self) -> u8 {
        *self
    }
}

impl AsU8 for u16 {
    fn as_u8(&self) -> u8 {
        *self as u8
    }
}

// 2: Next, we need to implement an accessor interface
trait ReadableAsU8 {
    fn read_from(&self, index: usize) -> &dyn AsU8;
}

impl<T: AsU8> ReadableAsU8 for Chain<T> {
    fn read_from(&self, index: usize) -> &dyn AsU8 {
        assert!(index == 0, "Out of bounds access!");
        &self.object
    }
}

impl<T: AsU8, CE: ChainElement + ReadableAsU8> ReadableAsU8 for Link<T, CE> {
    fn read_from(&self, index: usize) -> &dyn AsU8 {
        if index == self.len() - 1 {
            &self.object
        } else {
            self.parent.read_from(index - 1)
        }
    }
}

// Through the accessor interface we can access any of our objects, but only through the
// common interface we defined in step 1.
fn do_test(obj_chain: &impl ReadableAsU8) {
    assert_eq!(2, obj_chain.read_from(1).as_u8());
}

#[test]
fn test_accessing_elements_with_common_interface() {
    do_test(&Chain::new(1u8).append(2u16));
}
